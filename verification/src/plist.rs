//! The launch agent definition that keeps the indicator running.

use vstd::prelude::*;
use crate::error::{ServiceError, ServiceErrorView};
use crate::paths::{service_label, utf8_str};
use vstd::utf8::{decode_utf8, valid_utf8};
use crate::text::opt_chars;

verus! {

pub open spec fn head_text() -> Seq<char> {
    "<?xml version=\"1.0\" encoding=\"UTF-8\"?>\n<!DOCTYPE plist PUBLIC \"-//Apple//DTD PLIST 1.0//EN\" \"http://www.apple.com/DTDs/PropertyList-1.0.dtd\">\n<plist version=\"1.0\">\n<dict>\n    <key>Label</key>\n    <string>"@
}

pub open spec fn program_text() -> Seq<char> {
    "</string>\n    <key>ProgramArguments</key>\n    <array>\n        <string>"@
}

pub open spec fn environment_text() -> Seq<char> {
    "</string>\n    </array>\n    <key>EnvironmentVariables</key>\n    <dict>\n        <key>PATH</key>\n        <string>"@
}

pub open spec fn keep_alive_text() -> Seq<char> {
    "</string>\n    </dict>\n    <key>RunAtLoad</key>\n    <true/>\n    <key>KeepAlive</key>\n    <dict>\n        <key>SuccessfulExit</key>\n        <false/>\n        <key>Crashed</key>\n        <true/>\n    </dict>\n    <key>StandardOutPath</key>\n    <string>"@
}

pub open spec fn error_path_text() -> Seq<char> {
    "</string>\n    <key>StandardErrorPath</key>\n    <string>"@
}

pub open spec fn tail_text() -> Seq<char> {
    "</string>\n    <key>ProcessType</key>\n    <string>Interactive</string>\n    <key>LimitLoadToSessionType</key>\n    <string>Aqua</string>\n</dict>\n</plist>\n"@
}

/// `/tmp/rift_app_indicator_<user>.out.log`: where the agent's standard output goes.
pub open spec fn out_log_path(user: Seq<char>) -> Seq<char> {
    "/tmp/rift_app_indicator_"@ + user + ".out.log"@
}

/// `/tmp/rift_app_indicator_<user>.err.log`: where the agent's standard error goes.
pub open spec fn err_log_path(user: Seq<char>) -> Seq<char> {
    "/tmp/rift_app_indicator_"@ + user + ".err.log"@
}

/// The agent definition for `user`, with `path_env` as the agent's `PATH`
/// and `exe` as the program it runs. The values are put in as they are.
pub open spec fn plist_text(user: Seq<char>, path_env: Seq<char>, exe: Seq<char>) -> Seq<char> {
    head_text() + service_label() + program_text() + exe + environment_text() + path_env
        + keep_alive_text() + out_log_path(user) + error_path_text() + err_log_path(user)
        + tail_text()
}

/// The agent definition, or why it cannot be written: `USER` is looked at
/// first, then `PATH`, then whether the executable's path is UTF-8.
pub open spec fn agent_definition_of(
    user: Option<Seq<char>>,
    path_env: Option<Seq<char>>,
    exe: Seq<u8>,
) -> Result<Seq<char>, ServiceErrorView> {
    match user {
        None => Err(ServiceErrorView::UserNotSet),
        Some(u) => match path_env {
            None => Err(ServiceErrorView::PathNotSet),
            Some(p) => if !valid_utf8(exe) {
                Err(ServiceErrorView::NonUtf8ExecutablePath)
            } else {
                Ok(plist_text(u, p, decode_utf8(exe)))
            },
        },
    }
}

/// The agent definition for `user`, with `path_env` as its `PATH` and
/// `exe` as the program it runs.
pub fn plist_contents(user: &str, path_env: &str, exe: &str) -> (s: String)
    ensures
        s@ == plist_text(user@, path_env@, exe@),
{
    let s = String::from_str(
        "<?xml version=\"1.0\" encoding=\"UTF-8\"?>\n<!DOCTYPE plist PUBLIC \"-//Apple//DTD PLIST 1.0//EN\" \"http://www.apple.com/DTDs/PropertyList-1.0.dtd\">\n<plist version=\"1.0\">\n<dict>\n    <key>Label</key>\n    <string>",
    ).concat("com.rift.app-indicator").concat(
        "</string>\n    <key>ProgramArguments</key>\n    <array>\n        <string>",
    ).concat(exe).concat(
        "</string>\n    </array>\n    <key>EnvironmentVariables</key>\n    <dict>\n        <key>PATH</key>\n        <string>",
    ).concat(path_env).concat(
        "</string>\n    </dict>\n    <key>RunAtLoad</key>\n    <true/>\n    <key>KeepAlive</key>\n    <dict>\n        <key>SuccessfulExit</key>\n        <false/>\n        <key>Crashed</key>\n        <true/>\n    </dict>\n    <key>StandardOutPath</key>\n    <string>",
    ).concat("/tmp/rift_app_indicator_").concat(user).concat(".out.log").concat(
        "</string>\n    <key>StandardErrorPath</key>\n    <string>",
    ).concat("/tmp/rift_app_indicator_").concat(user).concat(".err.log").concat(
        "</string>\n    <key>ProcessType</key>\n    <string>Interactive</string>\n    <key>LimitLoadToSessionType</key>\n    <string>Aqua</string>\n</dict>\n</plist>\n",
    );
    assert(s@ =~= plist_text(user@, path_env@, exe@));
    s
}

/// The agent definition, or the error that stops it from being written
/// (see `agent_definition_of`); `exe` is the installed executable's path.
pub fn agent_definition(
    user: &Option<String>,
    path_env: &Option<String>,
    exe: &[u8],
) -> (r: Result<String, ServiceError>)
    ensures
        match r {
            Ok(s) => agent_definition_of(opt_chars(*user), opt_chars(*path_env), exe@)
                == Ok::<Seq<char>, ServiceErrorView>(s@),
            Err(e) => agent_definition_of(opt_chars(*user), opt_chars(*path_env), exe@)
                == Err::<Seq<char>, ServiceErrorView>(e@),
        },
{
    match user {
        None => Err(ServiceError::UserNotSet),
        Some(u) => match path_env {
            None => Err(ServiceError::PathNotSet),
            Some(p) => match utf8_str(exe) {
                None => Err(ServiceError::NonUtf8ExecutablePath),
                Some(e) => Ok(plist_contents(u.as_str(), p.as_str(), e)),
            },
        },
    }
}

} // verus!

verus! {

/// Whether `part` stands somewhere in `whole`.
pub open spec fn occurs_in(part: Seq<char>, whole: Seq<char>) -> bool {
    exists|i: int|
        0 <= i && i + part.len() <= whole.len() && #[trigger] whole.subrange(i, i + part.len())
            == part
}

proof fn occurs_between(pre: Seq<char>, part: Seq<char>, post: Seq<char>)
    ensures
        occurs_in(part, pre + part + post),
{
    let whole = pre + part + post;
    assert(whole.subrange(pre.len() as int, (pre.len() + part.len()) as int) =~= part);
}

/// The agent definition names the agent `com.rift.app-indicator`, runs the
/// installed executable, and sends its output to
/// `/tmp/rift_app_indicator_<user>.out.log` and its errors to
/// `/tmp/rift_app_indicator_<user>.err.log`.
pub proof fn definition_names_label_program_and_logs(
    user: Seq<char>,
    path_env: Seq<char>,
    exe: Seq<char>,
)
    ensures
        occurs_in(service_label(), plist_text(user, path_env, exe)),
        occurs_in(exe, plist_text(user, path_env, exe)),
        occurs_in(out_log_path(user), plist_text(user, path_env, exe)),
        occurs_in(err_log_path(user), plist_text(user, path_env, exe)),
{
    let t = plist_text(user, path_env, exe);
    let a = head_text();
    let b = program_text() + exe + environment_text() + path_env + keep_alive_text() + out_log_path(
        user,
    ) + error_path_text() + err_log_path(user) + tail_text();
    assert(t =~= a + service_label() + b);
    occurs_between(a, service_label(), b);
    let c = head_text() + service_label() + program_text();
    let d = environment_text() + path_env + keep_alive_text() + out_log_path(user)
        + error_path_text() + err_log_path(user) + tail_text();
    assert(t =~= c + exe + d);
    occurs_between(c, exe, d);
    let e = head_text() + service_label() + program_text() + exe + environment_text() + path_env
        + keep_alive_text();
    let f = error_path_text() + err_log_path(user) + tail_text();
    assert(t =~= e + out_log_path(user) + f);
    occurs_between(e, out_log_path(user), f);
    let g = e + out_log_path(user) + error_path_text();
    assert(t =~= g + err_log_path(user) + tail_text());
    occurs_between(g, err_log_path(user), tail_text());
}

} // verus!
