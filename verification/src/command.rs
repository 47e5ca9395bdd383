//! The `service` subcommand's words: which operation a command names, and
//! what is printed, and returned as the exit code, when it is over.

use vstd::prelude::*;
use crate::error::{error_message, ServiceError};
use crate::service::{outcome_view, Operation};

verus! {

/// Lines for standard output and standard error, and the exit code.
pub struct Report {
    pub stdout: Vec<String>,
    pub stderr: Vec<String>,
    pub exit_code: i32,
}

pub struct ReportView {
    pub stdout: Seq<Seq<char>>,
    pub stderr: Seq<Seq<char>>,
    pub exit_code: i32,
}

impl View for Report {
    type V = ReportView;

    open spec fn view(&self) -> ReportView {
        ReportView {
            stdout: self.stdout.deep_view(),
            stderr: self.stderr.deep_view(),
            exit_code: self.exit_code,
        }
    }
}

pub open spec fn usage_line() -> Seq<char> {
    "Usage: rift-app-indicator service <install|uninstall|start|stop|restart>"@
}

/// The operation a command word names, if any.
pub open spec fn operation_named(word: Seq<char>) -> Option<Operation> {
    if word == "install"@ {
        Some(Operation::Install)
    } else if word == "uninstall"@ {
        Some(Operation::Uninstall)
    } else if word == "start"@ {
        Some(Operation::Start)
    } else if word == "stop"@ {
        Some(Operation::Stop)
    } else if word == "restart"@ {
        Some(Operation::Restart)
    } else {
        None
    }
}

/// With no command word: the usage line on standard error, exit code 1.
pub open spec fn missing_command_report() -> ReportView {
    ReportView { stdout: seq![], stderr: seq![usage_line()], exit_code: 1 }
}

/// With a word that names no operation: that word, then the usage line,
/// on standard error; exit code 1.
pub open spec fn unknown_command_report(word: Seq<char>) -> ReportView {
    ReportView {
        stdout: seq![],
        stderr: seq!["Unknown service command: "@ + word, usage_line()],
        exit_code: 1,
    }
}

/// The word for an operation in messages.
pub open spec fn verb(op: Operation) -> Seq<char> {
    match op {
        Operation::Install => "install"@,
        Operation::Uninstall => "uninstall"@,
        Operation::Start => "start"@,
        Operation::Stop => "stop"@,
        Operation::Restart => "restart"@,
    }
}

/// What is printed when an operation succeeds.
pub open spec fn success_line(op: Operation) -> Seq<char> {
    match op {
        Operation::Install => "Service installed. Start it with `rift-app-indicator service start`."@,
        Operation::Uninstall => "Service uninstalled."@,
        Operation::Start => "Service started."@,
        Operation::Stop => "Service stopped."@,
        Operation::Restart => "Service restarted."@,
    }
}

/// On success the success line on standard output and exit code 0; on
/// failure `Failed to <verb> service: <error>` on standard error and exit
/// code 1.
pub open spec fn outcome_report(
    op: Operation,
    outcome: Result<(), crate::error::ServiceErrorView>,
) -> ReportView {
    match outcome {
        Ok(()) => ReportView { stdout: seq![success_line(op)], stderr: seq![], exit_code: 0 },
        Err(e) => ReportView {
            stdout: seq![],
            stderr: seq!["Failed to "@ + verb(op) + " service: "@ + error_message(e)],
            exit_code: 1,
        },
    }
}

fn one_line(s: String) -> (v: Vec<String>)
    ensures
        v.deep_view() == seq![s@],
{
    let mut v: Vec<String> = Vec::new();
    v.push(s);
    assert(v.deep_view() =~= seq![s@]);
    v
}

/// The usage line.
pub fn usage() -> (s: String)
    ensures
        s@ == usage_line(),
{
    String::from_str("Usage: rift-app-indicator service <install|uninstall|start|stop|restart>")
}

/// The operation that `command` names, or, when it names none, the report
/// to print instead.
pub fn select_operation(command: Option<&str>) -> (r: Result<Operation, Report>)
    ensures
        match command {
            None => r matches Err(rep) && rep@ == missing_command_report(),
            Some(word) => match operation_named(word@) {
                Some(op) => r == Ok::<Operation, Report>(op),
                None => r matches Err(rep) && rep@ == unknown_command_report(word@),
            },
        },
{
    match command {
        None => {
            let rep = Report { stdout: Vec::new(), stderr: one_line(usage()), exit_code: 1 };
            assert(rep@.stdout =~= seq![]);
            Err(rep)
        },
        Some(word) => {
            let w = String::from_str(word);
            if w == String::from_str("install") {
                Ok(Operation::Install)
            } else if w == String::from_str("uninstall") {
                Ok(Operation::Uninstall)
            } else if w == String::from_str("start") {
                Ok(Operation::Start)
            } else if w == String::from_str("stop") {
                Ok(Operation::Stop)
            } else if w == String::from_str("restart") {
                Ok(Operation::Restart)
            } else {
                let mut stderr: Vec<String> = Vec::new();
                stderr.push(String::from_str("Unknown service command: ").concat(word));
                stderr.push(usage());
                let rep = Report { stdout: Vec::new(), stderr, exit_code: 1 };
                assert(rep@.stdout =~= seq![]);
                assert(rep@.stderr =~= seq!["Unknown service command: "@ + word@, usage_line()]);
                Err(rep)
            }
        },
    }
}

fn verb_of(op: Operation) -> (s: &'static str)
    ensures
        s@ == verb(op),
{
    match op {
        Operation::Install => "install",
        Operation::Uninstall => "uninstall",
        Operation::Start => "start",
        Operation::Stop => "stop",
        Operation::Restart => "restart",
    }
}

fn success_of(op: Operation) -> (s: &'static str)
    ensures
        s@ == success_line(op),
{
    match op {
        Operation::Install => "Service installed. Start it with `rift-app-indicator service start`.",
        Operation::Uninstall => "Service uninstalled.",
        Operation::Start => "Service started.",
        Operation::Stop => "Service stopped.",
        Operation::Restart => "Service restarted.",
    }
}

/// What to print, and the exit code, once `op` is over with `outcome`.
pub fn report_outcome(op: Operation, outcome: &Result<(), ServiceError>) -> (r: Report)
    ensures
        r@ == outcome_report(op, outcome_view(*outcome)),
        r@.exit_code == 0 <==> outcome is Ok,
{
    match outcome {
        Ok(()) => {
            let rep = Report {
                stdout: one_line(String::from_str(success_of(op))),
                stderr: Vec::new(),
                exit_code: 0,
            };
            assert(rep@.stderr =~= seq![]);
            rep
        },
        Err(e) => {
            let line = String::from_str("Failed to ").concat(verb_of(op)).concat(
                " service: ",
            ).concat(e.message().as_str());
            let rep = Report { stdout: Vec::new(), stderr: one_line(line), exit_code: 1 };
            assert(rep@.stdout =~= seq![]);
            rep
        },
    }
}

} // verus!
