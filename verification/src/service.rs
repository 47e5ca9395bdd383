//! Installing and managing the user LaunchAgent that keeps the indicator
//! running: each operation is a task that asks for one outside step at a
//! time (a file check, a `launchctl` run, ...) and decides from the answer
//! what to ask next, until it finishes with its outcome.

use vstd::prelude::*;
use crate::error::{ServiceError, ServiceErrorView};
use crate::paths::{
    domain_target, domain_target_of, installed_bin_path, installed_bin_path_of, lossy_string,
    lossy_text, plist_path, plist_path_of, service_target, service_target_of, utf8_str,
};
use crate::plist::{agent_definition, agent_definition_of};
use crate::text::opt_chars;
use vstd::utf8::{decode_utf8, valid_utf8};

verus! {

/// What the process knows of its surroundings when an operation begins.
pub struct Environment {
    /// The bytes of `HOME`, if set.
    pub home: Option<Vec<u8>>,
    /// `USER`, if set to valid Unicode.
    pub user: Option<String>,
    /// `PATH`, if set to valid Unicode.
    pub path_env: Option<String>,
    /// The real user id of the process.
    pub uid: u32,
}

pub struct EnvironmentView {
    pub home: Option<Seq<u8>>,
    pub user: Option<Seq<char>>,
    pub path_env: Option<Seq<char>>,
    pub uid: u32,
}

/// Optional bytes taken as an optional byte sequence.
pub open spec fn opt_bytes(o: Option<Vec<u8>>) -> Option<Seq<u8>> {
    match o {
        Some(b) => Some(b@),
        None => None,
    }
}

impl View for Environment {
    type V = EnvironmentView;

    open spec fn view(&self) -> EnvironmentView {
        EnvironmentView {
            home: opt_bytes(self.home),
            user: opt_chars(self.user),
            path_env: opt_chars(self.path_env),
            uid: self.uid,
        }
    }
}

/// The service operations.
#[derive(PartialEq, Eq, Structural, Clone, Copy, Debug)]
pub enum Operation {
    Install,
    Uninstall,
    Start,
    Stop,
    Restart,
}

/// What follows once the agent definition is up to date.
#[derive(PartialEq, Eq, Structural, Clone, Copy, Debug)]
pub enum Resume {
    Install,
    Start,
}

/// Where a task stands: each phase waits for the answer to one request.
#[derive(PartialEq, Eq, Structural, Clone, Copy, Debug)]
pub enum Phase {
    /// Install: is the agent definition already there?
    InstallCheckPlist,
    /// Copying the running executable to its installed place.
    InstallExecutable(Resume),
    /// Reading the agent definition on disk.
    ReadPlist(Resume),
    /// Writing the agent definition.
    WritePlist(Resume),
    /// Start: is the agent loaded (`launchctl print`)?
    StartProbe { plist_changed: bool },
    /// Start, not loaded: `launchctl enable`.
    StartEnable,
    /// Start, not loaded: `launchctl bootstrap`, in the background.
    StartBootstrap,
    /// Start, not loaded: a pause for the bootstrap to land.
    StartSettle,
    /// Start, not loaded: `launchctl kickstart` after the bootstrap.
    StartKickstartFresh,
    /// Start, loaded: `launchctl kickstart`.
    StartKickstart { plist_changed: bool },
    /// Start, loaded, kickstart failed with `code`, definition changed: `launchctl bootout`.
    StartBootout { code: i32 },
    /// ... then `launchctl bootstrap` again, in the background.
    StartRebootstrap { code: i32 },
    /// ... then a pause.
    StartResettle { code: i32 },
    /// ... then `launchctl kickstart` again.
    StartKickstartReloaded { code: i32 },
    /// Stop: is the agent definition there?
    StopCheckPlist,
    /// Stop: is the agent loaded?
    StopProbe,
    /// Stop, loaded: `launchctl kill SIGTERM`.
    StopKill,
    /// Stop, not loaded: `launchctl bootout`.
    StopBootout,
    /// Stop, not loaded: `launchctl disable`, after bootout exited with `bootout_code`.
    StopDisable { bootout_code: i32 },
    /// Restart: is the agent definition there?
    RestartCheckPlist,
    /// Restart: `launchctl kickstart -k`.
    RestartKickstart,
    /// Uninstall: is the agent definition there?
    UninstallCheckPlist,
    /// Uninstall: is the agent loaded?
    UninstallProbe,
    /// Uninstall: removing the agent definition.
    UninstallRemove,
}

/// The answer to a request.
pub enum Event {
    /// Whether the path names a regular file.
    IsFile(bool),
    /// The step was carried out.
    Completed,
    /// The file's text, or `None` when there is no such file.
    Contents(Option<String>),
    /// `launchctl` exited with this code.
    Exited(i32),
    /// The step failed.
    Failed(ServiceError),
}

pub enum EventView {
    IsFile(bool),
    Completed,
    Contents(Option<Seq<char>>),
    Exited(i32),
    Failed(ServiceErrorView),
}

impl View for Event {
    type V = EventView;

    open spec fn view(&self) -> EventView {
        match self {
            Event::IsFile(b) => EventView::IsFile(*b),
            Event::Completed => EventView::Completed,
            Event::Contents(c) => EventView::Contents(opt_chars(*c)),
            Event::Exited(c) => EventView::Exited(*c),
            Event::Failed(e) => EventView::Failed(e@),
        }
    }
}

/// What a task asks to have done next.
pub enum Action {
    /// Answer `IsFile`: whether `path` is a regular file.
    CheckPlistIsFile { path: Vec<u8> },
    /// Copy the running executable to `path` (unless it runs from there),
    /// creating the directory; answer `Completed` or `Failed`.
    InstallExecutable { path: Vec<u8> },
    /// Read `path` as text; answer `Contents` (`None` when it does not
    /// exist) or `Failed`.
    ReadPlist { path: Vec<u8> },
    /// Create the directory of `path` and write `contents` to it; answer
    /// `Completed` or `Failed`.
    WritePlist { path: Vec<u8>, contents: String },
    /// Run `/bin/launchctl` with `args`, its output discarded when
    /// `suppress_output`; answer `Exited` or `Failed`.
    RunLaunchctl { args: Vec<String>, suppress_output: bool },
    /// Start `/bin/launchctl` with `args` in the background, all its
    /// streams discarded; answer `Completed` or `Failed`.
    SpawnLaunchctl { args: Vec<String> },
    /// Sleep for `millis` milliseconds; answer `Completed`.
    Sleep { millis: u64 },
    /// Remove the file at `path`; answer `Completed` or `Failed`.
    RemovePlist { path: Vec<u8> },
    /// The operation is over, with this outcome.
    Finish(Result<(), ServiceError>),
}

pub enum ActionView {
    CheckPlistIsFile { path: Seq<u8> },
    InstallExecutable { path: Seq<u8> },
    ReadPlist { path: Seq<u8> },
    WritePlist { path: Seq<u8>, contents: Seq<char> },
    RunLaunchctl { args: Seq<Seq<char>>, suppress_output: bool },
    SpawnLaunchctl { args: Seq<Seq<char>> },
    Sleep { millis: u64 },
    RemovePlist { path: Seq<u8> },
    Finish(Result<(), ServiceErrorView>),
}

pub open spec fn outcome_view(r: Result<(), ServiceError>) -> Result<(), ServiceErrorView> {
    match r {
        Ok(()) => Ok(()),
        Err(e) => Err(e@),
    }
}

impl View for Action {
    type V = ActionView;

    open spec fn view(&self) -> ActionView {
        match self {
            Action::CheckPlistIsFile { path } => ActionView::CheckPlistIsFile { path: path@ },
            Action::InstallExecutable { path } => ActionView::InstallExecutable { path: path@ },
            Action::ReadPlist { path } => ActionView::ReadPlist { path: path@ },
            Action::WritePlist { path, contents } => ActionView::WritePlist {
                path: path@,
                contents: contents@,
            },
            Action::RunLaunchctl { args, suppress_output } => ActionView::RunLaunchctl {
                args: args.deep_view(),
                suppress_output: *suppress_output,
            },
            Action::SpawnLaunchctl { args } => ActionView::SpawnLaunchctl {
                args: args.deep_view(),
            },
            Action::Sleep { millis } => ActionView::Sleep { millis: *millis },
            Action::RemovePlist { path } => ActionView::RemovePlist { path: path@ },
            Action::Finish(r) => ActionView::Finish(outcome_view(*r)),
        }
    }
}

/// A service operation under way.
pub struct ServiceTask {
    pub env: Environment,
    pub phase: Phase,
    /// `Some` once the operation is over.
    pub outcome: Option<Result<(), ServiceError>>,
}

pub struct TaskView {
    pub env: EnvironmentView,
    pub phase: Phase,
    pub outcome: Option<Result<(), ServiceErrorView>>,
}

impl View for ServiceTask {
    type V = TaskView;

    open spec fn view(&self) -> TaskView {
        TaskView {
            env: self.env@,
            phase: self.phase,
            outcome: match self.outcome {
                Some(r) => Some(outcome_view(r)),
                None => None,
            },
        }
    }
}

// ----- the model -----

pub open spec fn home_of(env: EnvironmentView) -> Seq<u8> {
    match env.home {
        Some(h) => h,
        None => Seq::empty(),
    }
}

/// The agent definition's path.
pub open spec fn plist_of(env: EnvironmentView) -> Seq<u8> {
    plist_path_of(home_of(env))
}

/// The installed executable's path.
pub open spec fn exe_of(env: EnvironmentView) -> Seq<u8> {
    installed_bin_path_of(home_of(env))
}

/// The agent definition that should be on disk, or why it cannot be made.
pub open spec fn desired_of(env: EnvironmentView) -> Result<Seq<char>, ServiceErrorView> {
    agent_definition_of(env.user, env.path_env, exe_of(env))
}

/// The text of the agent definition that should be on disk (empty when
/// `desired_of` is an error).
pub open spec fn desired_text(env: EnvironmentView) -> Seq<char> {
    match desired_of(env) {
        Ok(t) => t,
        Err(_) => Seq::empty(),
    }
}

/// The agent definition's path as it shows in messages.
pub open spec fn plist_shown(env: EnvironmentView) -> Seq<char> {
    lossy_text(plist_of(env))
}

/// Whether the next request can be made: those that name the agent
/// definition to `launchctl` need its path as text.
pub open spec fn request_defined(t: TaskView) -> bool {
    t.outcome is None && (t.phase == Phase::StartBootstrap || t.phase is StartRebootstrap
        || t.phase is StartBootout || t.phase == Phase::StopBootout) ==> valid_utf8(
        plist_of(t.env),
    )
}

/// The phase an operation begins in.
pub open spec fn first_phase(op: Operation) -> Phase {
    match op {
        Operation::Install => Phase::InstallCheckPlist,
        Operation::Uninstall => Phase::UninstallCheckPlist,
        Operation::Start => Phase::InstallExecutable(Resume::Start),
        Operation::Stop => Phase::StopCheckPlist,
        Operation::Restart => Phase::RestartCheckPlist,
    }
}

/// A task for `op` as it begins: every operation first needs the agent
/// definition's path, so without `HOME` it is over at once.
pub open spec fn begin(env: EnvironmentView, op: Operation) -> TaskView {
    TaskView {
        env,
        phase: first_phase(op),
        outcome: if env.home is None {
            Some(Err(ServiceErrorView::HomeNotSet))
        } else {
            None
        },
    }
}

pub open spec fn finish(t: TaskView, r: Result<(), ServiceErrorView>) -> TaskView {
    TaskView { outcome: Some(r), ..t }
}

pub open spec fn goto(t: TaskView, p: Phase) -> TaskView {
    TaskView { phase: p, ..t }
}

pub open spec fn fail_unless_zero(code: i32, e: ServiceErrorView) -> Result<(), ServiceErrorView> {
    if code == 0 {
        Ok(())
    } else {
        Err(e)
    }
}

/// Once the agent definition is up to date: install is done; start goes
/// on to look whether the agent is loaded.
pub open spec fn resume(t: TaskView, r: Resume, plist_changed: bool) -> TaskView {
    match r {
        Resume::Install => finish(t, Ok(())),
        Resume::Start => goto(t, Phase::StartProbe { plist_changed }),
    }
}

/// The task after the answer `e` to its request. An answer of a kind the
/// request does not take leaves the task as it was, and a finished task
/// stays as it is.
pub open spec fn next(t: TaskView, e: EventView) -> TaskView {
    if t.outcome is Some {
        t
    } else {
        let env = t.env;
        match t.phase {
            Phase::InstallCheckPlist => match e {
                EventView::IsFile(true) => finish(
                    t,
                    Err(ServiceErrorView::AlreadyInstalled { plist: plist_shown(env) }),
                ),
                EventView::IsFile(false) => goto(t, Phase::InstallExecutable(Resume::Install)),
                _ => t,
            },
            Phase::InstallExecutable(r) => match e {
                EventView::Completed => match desired_of(env) {
                    Err(err) => finish(t, Err(err)),
                    Ok(_) => goto(t, Phase::ReadPlist(r)),
                },
                EventView::Failed(err) => finish(t, Err(err)),
                _ => t,
            },
            Phase::ReadPlist(r) => match e {
                EventView::Contents(Some(existing)) => if existing == desired_text(env) {
                    resume(t, r, false)
                } else {
                    goto(t, Phase::WritePlist(r))
                },
                EventView::Contents(None) => goto(t, Phase::WritePlist(r)),
                EventView::Failed(err) => finish(t, Err(err)),
                _ => t,
            },
            Phase::WritePlist(r) => match e {
                EventView::Completed => resume(t, r, true),
                EventView::Failed(err) => finish(t, Err(err)),
                _ => t,
            },
            Phase::StartProbe { plist_changed } => match e {
                EventView::Exited(c) => if c == 0 {
                    goto(t, Phase::StartKickstart { plist_changed })
                } else {
                    goto(t, Phase::StartEnable)
                },
                EventView::Failed(_) => goto(t, Phase::StartEnable),
                _ => t,
            },
            Phase::StartEnable => match e {
                EventView::Exited(_) => goto(t, Phase::StartBootstrap),
                EventView::Failed(_) => goto(t, Phase::StartBootstrap),
                _ => t,
            },
            Phase::StartBootstrap => match e {
                EventView::Completed => goto(t, Phase::StartSettle),
                EventView::Failed(_) => goto(t, Phase::StartSettle),
                _ => t,
            },
            Phase::StartSettle => match e {
                EventView::Completed => goto(t, Phase::StartKickstartFresh),
                _ => t,
            },
            Phase::StartKickstartFresh => match e {
                EventView::Exited(c) => finish(
                    t,
                    fail_unless_zero(c, ServiceErrorView::KickstartAfterBootstrapFailed { code: c }),
                ),
                EventView::Failed(err) => finish(t, Err(err)),
                _ => t,
            },
            Phase::StartKickstart { plist_changed } => match e {
                EventView::Exited(c) => if c == 0 {
                    finish(t, Ok(()))
                } else if plist_changed {
                    goto(t, Phase::StartBootout { code: c })
                } else {
                    finish(t, Err(ServiceErrorView::KickstartFailed { code: c }))
                },
                EventView::Failed(err) => finish(t, Err(err)),
                _ => t,
            },
            Phase::StartBootout { code } => match e {
                EventView::Exited(_) => goto(t, Phase::StartRebootstrap { code }),
                EventView::Failed(_) => goto(t, Phase::StartRebootstrap { code }),
                _ => t,
            },
            Phase::StartRebootstrap { code } => match e {
                EventView::Completed => goto(t, Phase::StartResettle { code }),
                EventView::Failed(_) => goto(t, Phase::StartResettle { code }),
                _ => t,
            },
            Phase::StartResettle { code } => match e {
                EventView::Completed => goto(t, Phase::StartKickstartReloaded { code }),
                _ => t,
            },
            Phase::StartKickstartReloaded { code } => match e {
                EventView::Exited(c) => finish(
                    t,
                    fail_unless_zero(
                        c,
                        ServiceErrorView::ReloadKickstartFailed { code, reload_code: c },
                    ),
                ),
                EventView::Failed(err) => finish(t, Err(err)),
                _ => t,
            },
            Phase::StopCheckPlist => match e {
                EventView::IsFile(true) => goto(t, Phase::StopProbe),
                EventView::IsFile(false) => finish(
                    t,
                    Err(ServiceErrorView::NotInstalled { plist: plist_shown(env) }),
                ),
                _ => t,
            },
            Phase::StopProbe => match e {
                EventView::Exited(c) => if c == 0 {
                    goto(t, Phase::StopKill)
                } else {
                    goto(t, Phase::StopBootout)
                },
                EventView::Failed(_) => goto(t, Phase::StopBootout),
                _ => t,
            },
            Phase::StopKill => match e {
                EventView::Exited(c) => finish(
                    t,
                    fail_unless_zero(c, ServiceErrorView::KillFailed { code: c }),
                ),
                EventView::Failed(err) => finish(t, Err(err)),
                _ => t,
            },
            Phase::StopBootout => match e {
                EventView::Exited(c) => goto(t, Phase::StopDisable { bootout_code: c }),
                EventView::Failed(err) => finish(t, Err(err)),
                _ => t,
            },
            Phase::StopDisable { bootout_code } => match e {
                EventView::Exited(c) => finish(
                    t,
                    if bootout_code == 0 && c == 0 {
                        Ok(())
                    } else {
                        Err(
                            ServiceErrorView::BootoutDisableFailed {
                                bootout_code,
                                disable_code: c,
                            },
                        )
                    },
                ),
                EventView::Failed(err) => finish(t, Err(err)),
                _ => t,
            },
            Phase::RestartCheckPlist => match e {
                EventView::IsFile(true) => goto(t, Phase::RestartKickstart),
                EventView::IsFile(false) => finish(
                    t,
                    Err(ServiceErrorView::NotInstalled { plist: plist_shown(env) }),
                ),
                _ => t,
            },
            Phase::RestartKickstart => match e {
                EventView::Exited(c) => finish(
                    t,
                    fail_unless_zero(c, ServiceErrorView::RestartFailed { code: c }),
                ),
                EventView::Failed(err) => finish(t, Err(err)),
                _ => t,
            },
            Phase::UninstallCheckPlist => match e {
                EventView::IsFile(true) => goto(t, Phase::UninstallProbe),
                EventView::IsFile(false) => finish(
                    t,
                    Err(ServiceErrorView::NotInstalled { plist: plist_shown(env) }),
                ),
                _ => t,
            },
            Phase::UninstallProbe => match e {
                EventView::Exited(c) => if c == 0 {
                    finish(t, Err(ServiceErrorView::StillRunning))
                } else {
                    goto(t, Phase::UninstallRemove)
                },
                EventView::Failed(_) => goto(t, Phase::UninstallRemove),
                _ => t,
            },
            Phase::UninstallRemove => match e {
                EventView::Completed => finish(t, Ok(())),
                EventView::Failed(err) => finish(t, Err(err)),
                _ => t,
            },
        }
    }
}

pub open spec fn print_args(env: EnvironmentView) -> Seq<Seq<char>> {
    seq!["print"@, service_target_of(env.uid)]
}

pub open spec fn kickstart_args(env: EnvironmentView) -> Seq<Seq<char>> {
    seq!["kickstart"@, service_target_of(env.uid)]
}

pub open spec fn bootstrap_args(env: EnvironmentView) -> Seq<Seq<char>> {
    seq!["bootstrap"@, domain_target_of(env.uid), decode_utf8(plist_of(env))]
}

pub open spec fn bootout_args(env: EnvironmentView) -> Seq<Seq<char>> {
    seq!["bootout"@, domain_target_of(env.uid), decode_utf8(plist_of(env))]
}

/// The pause after a background bootstrap, in milliseconds.
pub open spec fn settle_millis() -> u64 {
    150
}

/// What a task asks to have done next.
pub open spec fn request(t: TaskView) -> ActionView {
    match t.outcome {
        Some(r) => ActionView::Finish(r),
        None => {
            let env = t.env;
            match t.phase {
                Phase::InstallCheckPlist => ActionView::CheckPlistIsFile { path: plist_of(env) },
                Phase::StopCheckPlist => ActionView::CheckPlistIsFile { path: plist_of(env) },
                Phase::RestartCheckPlist => ActionView::CheckPlistIsFile { path: plist_of(env) },
                Phase::UninstallCheckPlist => ActionView::CheckPlistIsFile { path: plist_of(env) },
                Phase::InstallExecutable(_) => ActionView::InstallExecutable { path: exe_of(env) },
                Phase::ReadPlist(_) => ActionView::ReadPlist { path: plist_of(env) },
                Phase::WritePlist(_) => ActionView::WritePlist {
                    path: plist_of(env),
                    contents: desired_text(env),
                },
                Phase::StartProbe { .. } => ActionView::RunLaunchctl {
                    args: print_args(env),
                    suppress_output: true,
                },
                Phase::StopProbe => ActionView::RunLaunchctl {
                    args: print_args(env),
                    suppress_output: true,
                },
                Phase::UninstallProbe => ActionView::RunLaunchctl {
                    args: print_args(env),
                    suppress_output: true,
                },
                Phase::StartEnable => ActionView::RunLaunchctl {
                    args: seq!["enable"@, service_target_of(env.uid)],
                    suppress_output: true,
                },
                Phase::StartBootstrap => ActionView::SpawnLaunchctl { args: bootstrap_args(env) },
                Phase::StartRebootstrap { .. } => ActionView::SpawnLaunchctl {
                    args: bootstrap_args(env),
                },
                Phase::StartSettle => ActionView::Sleep { millis: settle_millis() },
                Phase::StartResettle { .. } => ActionView::Sleep { millis: settle_millis() },
                Phase::StartKickstartFresh => ActionView::RunLaunchctl {
                    args: kickstart_args(env),
                    suppress_output: false,
                },
                Phase::StartKickstart { .. } => ActionView::RunLaunchctl {
                    args: kickstart_args(env),
                    suppress_output: false,
                },
                Phase::StartKickstartReloaded { .. } => ActionView::RunLaunchctl {
                    args: kickstart_args(env),
                    suppress_output: false,
                },
                Phase::StartBootout { .. } => ActionView::RunLaunchctl {
                    args: bootout_args(env),
                    suppress_output: true,
                },
                Phase::StopKill => ActionView::RunLaunchctl {
                    args: seq!["kill"@, "SIGTERM"@, service_target_of(env.uid)],
                    suppress_output: false,
                },
                Phase::StopBootout => ActionView::RunLaunchctl {
                    args: bootout_args(env),
                    suppress_output: false,
                },
                Phase::StopDisable { .. } => ActionView::RunLaunchctl {
                    args: seq!["disable"@, service_target_of(env.uid)],
                    suppress_output: false,
                },
                Phase::RestartKickstart => ActionView::RunLaunchctl {
                    args: seq!["kickstart"@, "-k"@, service_target_of(env.uid)],
                    suppress_output: false,
                },
                Phase::UninstallRemove => ActionView::RemovePlist { path: plist_of(env) },
            }
        },
    }
}

} // verus!

verus! {

fn env_plist(env: &Environment) -> (p: Vec<u8>)
    ensures
        p@ == plist_of(env@),
{
    match &env.home {
        Some(h) => plist_path(h.as_slice()),
        None => {
            let none: Vec<u8> = Vec::new();
            plist_path(none.as_slice())
        },
    }
}

fn env_exe(env: &Environment) -> (p: Vec<u8>)
    ensures
        p@ == exe_of(env@),
{
    match &env.home {
        Some(h) => installed_bin_path(h.as_slice()),
        None => {
            let none: Vec<u8> = Vec::new();
            installed_bin_path(none.as_slice())
        },
    }
}

fn desired_contents(env: &Environment) -> (s: String)
    ensures
        s@ == desired_text(env@),
{
    let exe = env_exe(env);
    match agent_definition(&env.user, &env.path_env, exe.as_slice()) {
        Ok(text) => text,
        Err(_) => String::new(),
    }
}

fn plist_shown_of(env: &Environment) -> (s: String)
    ensures
        s@ == plist_shown(env@),
{
    let plist = env_plist(env);
    lossy_string(plist.as_slice())
}

fn plist_as_text(env: &Environment) -> (s: String)
    requires
        valid_utf8(plist_of(env@)),
    ensures
        s@ == decode_utf8(plist_of(env@)),
{
    let plist = env_plist(env);
    match utf8_str(plist.as_slice()) {
        Some(t) => String::from_str(t),
        None => String::new(),
    }
}

fn arguments2(a: String, b: String) -> (v: Vec<String>)
    ensures
        v.deep_view() == seq![a@, b@],
{
    let mut v: Vec<String> = Vec::new();
    v.push(a);
    v.push(b);
    assert(v.deep_view() =~= seq![a@, b@]);
    v
}

fn arguments3(a: String, b: String, c: String) -> (v: Vec<String>)
    ensures
        v.deep_view() == seq![a@, b@, c@],
{
    let mut v: Vec<String> = Vec::new();
    v.push(a);
    v.push(b);
    v.push(c);
    assert(v.deep_view() =~= seq![a@, b@, c@]);
    v
}

fn copy_outcome(r: &Result<(), ServiceError>) -> (c: Result<(), ServiceError>)
    ensures
        outcome_view(c) == outcome_view(*r),
{
    match r {
        Ok(()) => Ok(()),
        Err(e) => Err(e.duplicate()),
    }
}

fn first_phase_of(op: Operation) -> (p: Phase)
    ensures
        p == first_phase(op),
{
    match op {
        Operation::Install => Phase::InstallCheckPlist,
        Operation::Uninstall => Phase::UninstallCheckPlist,
        Operation::Start => Phase::InstallExecutable(Resume::Start),
        Operation::Stop => Phase::StopCheckPlist,
        Operation::Restart => Phase::RestartCheckPlist,
    }
}

/// Whether `launchctl print` found the agent loaded: it did when it exited
/// with 0; any other exit, or a failure to run it, counts as not loaded.
pub fn service_is_running(print_result: &Result<i32, ServiceError>) -> (running: bool)
    ensures
        running == (print_result matches Ok(code) && code == 0),
{
    match print_result {
        Ok(code) => *code == 0,
        Err(_) => false,
    }
}

/// The answer to a `launchctl` run from how it ended: its exit code, or,
/// when it has none, the signal that killed it (0 when that is unknown).
pub fn launchctl_event(code: Option<i32>, signal: Option<i32>) -> (e: Event)
    ensures
        e@ == match code {
            Some(c) => EventView::Exited(c),
            None => EventView::Failed(
                ServiceErrorView::TerminatedBySignal {
                    signal: match signal {
                        Some(s) => s,
                        None => 0,
                    },
                },
            ),
        },
{
    match code {
        Some(c) => Event::Exited(c),
        None => Event::Failed(
            ServiceError::TerminatedBySignal {
                signal: match signal {
                    Some(s) => s,
                    None => 0,
                },
            },
        ),
    }
}

/// A task for `op` in `env`.
pub fn begin_operation(env: Environment, op: Operation) -> (t: ServiceTask)
    ensures
        t@ == begin(env@, op),
{
    let outcome = if env.home.is_none() {
        Some(Err(ServiceError::HomeNotSet))
    } else {
        None
    };
    ServiceTask { env, phase: first_phase_of(op), outcome }
}

/// Installing the agent: refuse when its definition is already in place,
/// else copy the executable to its installed place and write the
/// definition when it is missing or stale.
pub fn service_install(env: Environment) -> (t: ServiceTask)
    ensures
        t@ == begin(env@, Operation::Install),
{
    begin_operation(env, Operation::Install)
}

/// Uninstalling the agent: refuse when its definition is not in place or
/// the agent is loaded, else remove the definition.
pub fn service_uninstall(env: Environment) -> (t: ServiceTask)
    ensures
        t@ == begin(env@, Operation::Uninstall),
{
    begin_operation(env, Operation::Uninstall)
}

/// Starting the agent: install the executable, bring the definition up to
/// date, then kickstart the agent, bootstrapping it first when it is not
/// loaded, or reloading it when the kickstart fails after a change.
pub fn service_start(env: Environment) -> (t: ServiceTask)
    ensures
        t@ == begin(env@, Operation::Start),
{
    begin_operation(env, Operation::Start)
}

/// Stopping the agent: send it SIGTERM when it is loaded, else boot it
/// out and disable it.
pub fn service_stop(env: Environment) -> (t: ServiceTask)
    ensures
        t@ == begin(env@, Operation::Stop),
{
    begin_operation(env, Operation::Stop)
}

/// Restarting the agent: `launchctl kickstart -k`.
pub fn service_restart(env: Environment) -> (t: ServiceTask)
    ensures
        t@ == begin(env@, Operation::Restart),
{
    begin_operation(env, Operation::Restart)
}

impl ServiceTask {
    /// Whether the operation is over.
    pub fn is_finished(&self) -> (b: bool)
        ensures
            b == (self@.outcome is Some),
    {
        self.outcome.is_some()
    }

    /// Whether the next request can be made (see `request_defined`).
    pub fn can_request(&self) -> (b: bool)
        ensures
            b == request_defined(self@),
    {
        if self.outcome.is_some() {
            return true;
        }
        match self.phase {
            Phase::StartBootstrap | Phase::StartRebootstrap { .. } | Phase::StartBootout { .. }
            | Phase::StopBootout => {
                let plist = env_plist(&self.env);
                utf8_str(plist.as_slice()).is_some()
            },
            _ => true,
        }
    }

    /// What the task asks to have done next.
    pub fn request(&self) -> (a: Action)
        requires
            request_defined(self@),
        ensures
            a@ == request(self@),
    {
        match &self.outcome {
            Some(r) => Action::Finish(copy_outcome(r)),
            None => {
                let uid = self.env.uid;
                match self.phase {
                    Phase::InstallCheckPlist => Action::CheckPlistIsFile { path: env_plist(&self.env) },
                    Phase::StopCheckPlist => Action::CheckPlistIsFile { path: env_plist(&self.env) },
                    Phase::RestartCheckPlist => Action::CheckPlistIsFile { path: env_plist(&self.env) },
                    Phase::UninstallCheckPlist => Action::CheckPlistIsFile {
                        path: env_plist(&self.env),
                    },
                    Phase::InstallExecutable(_) => Action::InstallExecutable {
                        path: env_exe(&self.env),
                    },
                    Phase::ReadPlist(_) => Action::ReadPlist { path: env_plist(&self.env) },
                    Phase::WritePlist(_) => Action::WritePlist {
                        path: env_plist(&self.env),
                        contents: desired_contents(&self.env),
                    },
                    Phase::StartProbe { .. } => Action::RunLaunchctl {
                        args: arguments2(String::from_str("print"), service_target(uid)),
                        suppress_output: true,
                    },
                    Phase::StopProbe => Action::RunLaunchctl {
                        args: arguments2(String::from_str("print"), service_target(uid)),
                        suppress_output: true,
                    },
                    Phase::UninstallProbe => Action::RunLaunchctl {
                        args: arguments2(String::from_str("print"), service_target(uid)),
                        suppress_output: true,
                    },
                    Phase::StartEnable => Action::RunLaunchctl {
                        args: arguments2(String::from_str("enable"), service_target(uid)),
                        suppress_output: true,
                    },
                    Phase::StartBootstrap => Action::SpawnLaunchctl {
                        args: arguments3(
                            String::from_str("bootstrap"),
                            domain_target(uid),
                            plist_as_text(&self.env),
                        ),
                    },
                    Phase::StartRebootstrap { .. } => Action::SpawnLaunchctl {
                        args: arguments3(
                            String::from_str("bootstrap"),
                            domain_target(uid),
                            plist_as_text(&self.env),
                        ),
                    },
                    Phase::StartSettle => Action::Sleep { millis: 150 },
                    Phase::StartResettle { .. } => Action::Sleep { millis: 150 },
                    Phase::StartKickstartFresh => Action::RunLaunchctl {
                        args: arguments2(String::from_str("kickstart"), service_target(uid)),
                        suppress_output: false,
                    },
                    Phase::StartKickstart { .. } => Action::RunLaunchctl {
                        args: arguments2(String::from_str("kickstart"), service_target(uid)),
                        suppress_output: false,
                    },
                    Phase::StartKickstartReloaded { .. } => Action::RunLaunchctl {
                        args: arguments2(String::from_str("kickstart"), service_target(uid)),
                        suppress_output: false,
                    },
                    Phase::StartBootout { .. } => Action::RunLaunchctl {
                        args: arguments3(
                            String::from_str("bootout"),
                            domain_target(uid),
                            plist_as_text(&self.env),
                        ),
                        suppress_output: true,
                    },
                    Phase::StopKill => Action::RunLaunchctl {
                        args: arguments3(
                            String::from_str("kill"),
                            String::from_str("SIGTERM"),
                            service_target(uid),
                        ),
                        suppress_output: false,
                    },
                    Phase::StopBootout => Action::RunLaunchctl {
                        args: arguments3(
                            String::from_str("bootout"),
                            domain_target(uid),
                            plist_as_text(&self.env),
                        ),
                        suppress_output: false,
                    },
                    Phase::StopDisable { .. } => Action::RunLaunchctl {
                        args: arguments2(String::from_str("disable"), service_target(uid)),
                        suppress_output: false,
                    },
                    Phase::RestartKickstart => Action::RunLaunchctl {
                        args: arguments3(
                            String::from_str("kickstart"),
                            String::from_str("-k"),
                            service_target(uid),
                        ),
                        suppress_output: false,
                    },
                    Phase::UninstallRemove => Action::RemovePlist { path: env_plist(&self.env) },
                }
            },
        }
    }

    fn conclude(&mut self, r: Result<(), ServiceError>)
        ensures
            final(self)@ == finish(old(self)@, outcome_view(r)),
    {
        self.outcome = Some(r);
    }

    fn enter(&mut self, p: Phase)
        ensures
            final(self)@ == goto(old(self)@, p),
    {
        self.phase = p;
    }

    fn resume_after_write(&mut self, r: Resume, plist_changed: bool)
        ensures
            final(self)@ == resume(old(self)@, r, plist_changed),
    {
        match r {
            Resume::Install => self.conclude(Ok(())),
            Resume::Start => self.enter(Phase::StartProbe { plist_changed }),
        }
    }

    /// Takes the answer to the current request and moves on.
    pub fn advance(&mut self, event: Event)
        ensures
            final(self)@ == next(old(self)@, event@),
    {
        if self.outcome.is_some() {
            return;
        }
        match self.phase {
            Phase::InstallCheckPlist => match event {
                Event::IsFile(true) => {
                    let plist = plist_shown_of(&self.env);
                    self.conclude(Err(ServiceError::AlreadyInstalled { plist }));
                },
                Event::IsFile(false) => self.enter(Phase::InstallExecutable(Resume::Install)),
                _ => {},
            },
            Phase::InstallExecutable(r) => match event {
                Event::Completed => {
                    let exe = env_exe(&self.env);
                    let definition = agent_definition(
                        &self.env.user,
                        &self.env.path_env,
                        exe.as_slice(),
                    );
                    match definition {
                        Err(err) => self.conclude(Err(err)),
                        Ok(_) => self.enter(Phase::ReadPlist(r)),
                    }
                },
                Event::Failed(err) => self.conclude(Err(err)),
                _ => {},
            },
            Phase::ReadPlist(r) => match event {
                Event::Contents(Some(existing)) => {
                    let desired = desired_contents(&self.env);
                    if existing == desired {
                        self.resume_after_write(r, false);
                    } else {
                        self.enter(Phase::WritePlist(r));
                    }
                },
                Event::Contents(None) => self.enter(Phase::WritePlist(r)),
                Event::Failed(err) => self.conclude(Err(err)),
                _ => {},
            },
            Phase::WritePlist(r) => match event {
                Event::Completed => self.resume_after_write(r, true),
                Event::Failed(err) => self.conclude(Err(err)),
                _ => {},
            },
            Phase::StartProbe { plist_changed } => match event {
                Event::Exited(c) => if c == 0 {
                    self.enter(Phase::StartKickstart { plist_changed });
                } else {
                    self.enter(Phase::StartEnable);
                },
                Event::Failed(_) => self.enter(Phase::StartEnable),
                _ => {},
            },
            Phase::StartEnable => match event {
                Event::Exited(_) => self.enter(Phase::StartBootstrap),
                Event::Failed(_) => self.enter(Phase::StartBootstrap),
                _ => {},
            },
            Phase::StartBootstrap => match event {
                Event::Completed => self.enter(Phase::StartSettle),
                Event::Failed(_) => self.enter(Phase::StartSettle),
                _ => {},
            },
            Phase::StartSettle => match event {
                Event::Completed => self.enter(Phase::StartKickstartFresh),
                _ => {},
            },
            Phase::StartKickstartFresh => match event {
                Event::Exited(c) => if c == 0 {
                    self.conclude(Ok(()));
                } else {
                    self.conclude(Err(ServiceError::KickstartAfterBootstrapFailed { code: c }));
                },
                Event::Failed(err) => self.conclude(Err(err)),
                _ => {},
            },
            Phase::StartKickstart { plist_changed } => match event {
                Event::Exited(c) => if c == 0 {
                    self.conclude(Ok(()));
                } else if plist_changed {
                    self.enter(Phase::StartBootout { code: c });
                } else {
                    self.conclude(Err(ServiceError::KickstartFailed { code: c }));
                },
                Event::Failed(err) => self.conclude(Err(err)),
                _ => {},
            },
            Phase::StartBootout { code } => match event {
                Event::Exited(_) => self.enter(Phase::StartRebootstrap { code }),
                Event::Failed(_) => self.enter(Phase::StartRebootstrap { code }),
                _ => {},
            },
            Phase::StartRebootstrap { code } => match event {
                Event::Completed => self.enter(Phase::StartResettle { code }),
                Event::Failed(_) => self.enter(Phase::StartResettle { code }),
                _ => {},
            },
            Phase::StartResettle { code } => match event {
                Event::Completed => self.enter(Phase::StartKickstartReloaded { code }),
                _ => {},
            },
            Phase::StartKickstartReloaded { code } => match event {
                Event::Exited(c) => if c == 0 {
                    self.conclude(Ok(()));
                } else {
                    self.conclude(
                        Err(ServiceError::ReloadKickstartFailed { code, reload_code: c }),
                    );
                },
                Event::Failed(err) => self.conclude(Err(err)),
                _ => {},
            },
            Phase::StopCheckPlist => match event {
                Event::IsFile(true) => self.enter(Phase::StopProbe),
                Event::IsFile(false) => {
                    let plist = plist_shown_of(&self.env);
                    self.conclude(Err(ServiceError::NotInstalled { plist }));
                },
                _ => {},
            },
            Phase::StopProbe => match event {
                Event::Exited(c) => if c == 0 {
                    self.enter(Phase::StopKill);
                } else {
                    self.enter(Phase::StopBootout);
                },
                Event::Failed(_) => self.enter(Phase::StopBootout),
                _ => {},
            },
            Phase::StopKill => match event {
                Event::Exited(c) => if c == 0 {
                    self.conclude(Ok(()));
                } else {
                    self.conclude(Err(ServiceError::KillFailed { code: c }));
                },
                Event::Failed(err) => self.conclude(Err(err)),
                _ => {},
            },
            Phase::StopBootout => match event {
                Event::Exited(c) => self.enter(Phase::StopDisable { bootout_code: c }),
                Event::Failed(err) => self.conclude(Err(err)),
                _ => {},
            },
            Phase::StopDisable { bootout_code } => match event {
                Event::Exited(c) => if bootout_code == 0 && c == 0 {
                    self.conclude(Ok(()));
                } else {
                    self.conclude(
                        Err(ServiceError::BootoutDisableFailed { bootout_code, disable_code: c }),
                    );
                },
                Event::Failed(err) => self.conclude(Err(err)),
                _ => {},
            },
            Phase::RestartCheckPlist => match event {
                Event::IsFile(true) => self.enter(Phase::RestartKickstart),
                Event::IsFile(false) => {
                    let plist = plist_shown_of(&self.env);
                    self.conclude(Err(ServiceError::NotInstalled { plist }));
                },
                _ => {},
            },
            Phase::RestartKickstart => match event {
                Event::Exited(c) => if c == 0 {
                    self.conclude(Ok(()));
                } else {
                    self.conclude(Err(ServiceError::RestartFailed { code: c }));
                },
                Event::Failed(err) => self.conclude(Err(err)),
                _ => {},
            },
            Phase::UninstallCheckPlist => match event {
                Event::IsFile(true) => self.enter(Phase::UninstallProbe),
                Event::IsFile(false) => {
                    let plist = plist_shown_of(&self.env);
                    self.conclude(Err(ServiceError::NotInstalled { plist }));
                },
                _ => {},
            },
            Phase::UninstallProbe => match event {
                Event::Exited(c) => {
                    if service_is_running(&Ok(c)) {
                        self.conclude(Err(ServiceError::StillRunning));
                    } else {
                        self.enter(Phase::UninstallRemove);
                    }
                },
                Event::Failed(err) => {
                    if service_is_running(&Err(err)) {
                        self.conclude(Err(ServiceError::StillRunning));
                    } else {
                        self.enter(Phase::UninstallRemove);
                    }
                },
                _ => {},
            },
            Phase::UninstallRemove => match event {
                Event::Completed => self.conclude(Ok(())),
                Event::Failed(err) => self.conclude(Err(err)),
                _ => {},
            },
        }
    }
}

} // verus!
