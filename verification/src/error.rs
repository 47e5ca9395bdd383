//! The ways a service operation can fail, and the text each one shows.

use vstd::prelude::*;
use crate::text::{push_signed_decimal, signed_decimal};

verus! {

/// Why a service operation failed.
pub enum ServiceError {
    /// `HOME` is not set.
    HomeNotSet,
    /// `USER` is not set or is not valid Unicode.
    UserNotSet,
    /// `PATH` is not set or is not valid Unicode.
    PathNotSet,
    /// The installed executable's path is not valid UTF-8.
    NonUtf8ExecutablePath,
    /// Installing found the agent definition already in place.
    AlreadyInstalled { plist: String },
    /// The agent definition is not in place.
    NotInstalled { plist: String },
    /// Uninstalling found the agent still loaded.
    StillRunning,
    /// `launchctl` was killed by a signal instead of exiting.
    TerminatedBySignal { signal: i32 },
    /// The agent was bootstrapped, but starting it then failed.
    KickstartAfterBootstrapFailed { code: i32 },
    /// Starting the loaded agent failed, and its definition had not changed.
    KickstartFailed { code: i32 },
    /// Starting the loaded agent failed, and so did starting it again
    /// after reloading its changed definition.
    ReloadKickstartFailed { code: i32, reload_code: i32 },
    /// Restarting the agent failed.
    RestartFailed { code: i32 },
    /// Sending the agent SIGTERM failed.
    KillFailed { code: i32 },
    /// Unloading or disabling the agent failed.
    BootoutDisableFailed { bootout_code: i32, disable_code: i32 },
    /// A file or process operation failed; the text is the system's.
    Io { message: String },
}

/// A `ServiceError` with its strings taken as character sequences.
pub enum ServiceErrorView {
    HomeNotSet,
    UserNotSet,
    PathNotSet,
    NonUtf8ExecutablePath,
    AlreadyInstalled { plist: Seq<char> },
    NotInstalled { plist: Seq<char> },
    StillRunning,
    TerminatedBySignal { signal: i32 },
    KickstartAfterBootstrapFailed { code: i32 },
    KickstartFailed { code: i32 },
    ReloadKickstartFailed { code: i32, reload_code: i32 },
    RestartFailed { code: i32 },
    KillFailed { code: i32 },
    BootoutDisableFailed { bootout_code: i32, disable_code: i32 },
    Io { message: Seq<char> },
}

impl View for ServiceError {
    type V = ServiceErrorView;

    open spec fn view(&self) -> ServiceErrorView {
        match self {
            ServiceError::HomeNotSet => ServiceErrorView::HomeNotSet,
            ServiceError::UserNotSet => ServiceErrorView::UserNotSet,
            ServiceError::PathNotSet => ServiceErrorView::PathNotSet,
            ServiceError::NonUtf8ExecutablePath => ServiceErrorView::NonUtf8ExecutablePath,
            ServiceError::AlreadyInstalled { plist } => ServiceErrorView::AlreadyInstalled {
                plist: plist@,
            },
            ServiceError::NotInstalled { plist } => ServiceErrorView::NotInstalled { plist: plist@ },
            ServiceError::StillRunning => ServiceErrorView::StillRunning,
            ServiceError::TerminatedBySignal { signal } => ServiceErrorView::TerminatedBySignal {
                signal: *signal,
            },
            ServiceError::KickstartAfterBootstrapFailed { code } =>
                ServiceErrorView::KickstartAfterBootstrapFailed { code: *code },
            ServiceError::KickstartFailed { code } => ServiceErrorView::KickstartFailed {
                code: *code,
            },
            ServiceError::ReloadKickstartFailed { code, reload_code } =>
                ServiceErrorView::ReloadKickstartFailed { code: *code, reload_code: *reload_code },
            ServiceError::RestartFailed { code } => ServiceErrorView::RestartFailed { code: *code },
            ServiceError::KillFailed { code } => ServiceErrorView::KillFailed { code: *code },
            ServiceError::BootoutDisableFailed { bootout_code, disable_code } =>
                ServiceErrorView::BootoutDisableFailed {
                    bootout_code: *bootout_code,
                    disable_code: *disable_code,
                },
            ServiceError::Io { message } => ServiceErrorView::Io { message: message@ },
        }
    }
}

/// `(exit <code>)`.
pub open spec fn exit_note(code: i32) -> Seq<char> {
    "(exit "@ + signed_decimal(code as int) + ")"@
}

/// The text an error shows.
pub open spec fn error_message(e: ServiceErrorView) -> Seq<char> {
    match e {
        ServiceErrorView::HomeNotSet => "HOME not set"@,
        ServiceErrorView::UserNotSet => "env USER not set"@,
        ServiceErrorView::PathNotSet => "env PATH not set"@,
        ServiceErrorView::NonUtf8ExecutablePath => "non-UTF8 executable path"@,
        ServiceErrorView::AlreadyInstalled { plist } => "service file '"@ + plist
            + "' is already installed"@,
        ServiceErrorView::NotInstalled { plist } => "service file '"@ + plist
            + "' is not installed"@,
        ServiceErrorView::StillRunning =>
            "service is still running; stop it first with `rift-app-indicator service stop`"@,
        ServiceErrorView::TerminatedBySignal { signal } => "launchctl terminated by signal "@
            + signed_decimal(signal as int),
        ServiceErrorView::KickstartAfterBootstrapFailed { code } =>
            "kickstart after bootstrap failed "@ + exit_note(code),
        ServiceErrorView::KickstartFailed { code } => "kickstart failed "@ + exit_note(code),
        ServiceErrorView::ReloadKickstartFailed { code, reload_code } => "kickstart failed "@
            + exit_note(code) + ", reload+kickstart failed "@ + exit_note(reload_code),
        ServiceErrorView::RestartFailed { code } => "kickstart -k failed "@ + exit_note(code),
        ServiceErrorView::KillFailed { code } => "kill SIGTERM failed "@ + exit_note(code),
        ServiceErrorView::BootoutDisableFailed { bootout_code, disable_code } =>
            "bootout failed "@ + exit_note(bootout_code) + ", disable failed "@ + exit_note(
                disable_code,
            ),
        ServiceErrorView::Io { message } => message,
    }
}

fn push_exit_note(out: &mut String, code: i32)
    ensures
        final(out)@ == old(out)@ + exit_note(code),
{
    out.append("(exit ");
    push_signed_decimal(out, code as i64);
    out.append(")");
    assert(final(out)@ =~= old(out)@ + exit_note(code));
}

impl ServiceError {
    /// The text this error shows.
    pub fn message(&self) -> (m: String)
        ensures
            m@ == error_message(self@),
    {
        match self {
            ServiceError::HomeNotSet => String::from_str("HOME not set"),
            ServiceError::UserNotSet => String::from_str("env USER not set"),
            ServiceError::PathNotSet => String::from_str("env PATH not set"),
            ServiceError::NonUtf8ExecutablePath => String::from_str("non-UTF8 executable path"),
            ServiceError::AlreadyInstalled { plist } => {
                String::from_str("service file '").concat(plist.as_str()).concat(
                    "' is already installed",
                )
            },
            ServiceError::NotInstalled { plist } => {
                String::from_str("service file '").concat(plist.as_str()).concat(
                    "' is not installed",
                )
            },
            ServiceError::StillRunning => String::from_str(
                "service is still running; stop it first with `rift-app-indicator service stop`",
            ),
            ServiceError::TerminatedBySignal { signal } => {
                let mut m = String::from_str("launchctl terminated by signal ");
                push_signed_decimal(&mut m, *signal as i64);
                m
            },
            ServiceError::KickstartAfterBootstrapFailed { code } => {
                let mut m = String::from_str("kickstart after bootstrap failed ");
                push_exit_note(&mut m, *code);
                m
            },
            ServiceError::KickstartFailed { code } => {
                let mut m = String::from_str("kickstart failed ");
                push_exit_note(&mut m, *code);
                m
            },
            ServiceError::ReloadKickstartFailed { code, reload_code } => {
                let mut m = String::from_str("kickstart failed ");
                push_exit_note(&mut m, *code);
                m.append(", reload+kickstart failed ");
                push_exit_note(&mut m, *reload_code);
                m
            },
            ServiceError::RestartFailed { code } => {
                let mut m = String::from_str("kickstart -k failed ");
                push_exit_note(&mut m, *code);
                m
            },
            ServiceError::KillFailed { code } => {
                let mut m = String::from_str("kill SIGTERM failed ");
                push_exit_note(&mut m, *code);
                m
            },
            ServiceError::BootoutDisableFailed { bootout_code, disable_code } => {
                let mut m = String::from_str("bootout failed ");
                push_exit_note(&mut m, *bootout_code);
                m.append(", disable failed ");
                push_exit_note(&mut m, *disable_code);
                m
            },
            ServiceError::Io { message } => message.clone(),
        }
    }

    /// A copy of this error.
    pub fn duplicate(&self) -> (c: ServiceError)
        ensures
            c@ == self@,
    {
        match self {
            ServiceError::HomeNotSet => ServiceError::HomeNotSet,
            ServiceError::UserNotSet => ServiceError::UserNotSet,
            ServiceError::PathNotSet => ServiceError::PathNotSet,
            ServiceError::NonUtf8ExecutablePath => ServiceError::NonUtf8ExecutablePath,
            ServiceError::AlreadyInstalled { plist } => ServiceError::AlreadyInstalled {
                plist: plist.clone(),
            },
            ServiceError::NotInstalled { plist } => ServiceError::NotInstalled {
                plist: plist.clone(),
            },
            ServiceError::StillRunning => ServiceError::StillRunning,
            ServiceError::TerminatedBySignal { signal } => ServiceError::TerminatedBySignal {
                signal: *signal,
            },
            ServiceError::KickstartAfterBootstrapFailed { code } =>
                ServiceError::KickstartAfterBootstrapFailed { code: *code },
            ServiceError::KickstartFailed { code } => ServiceError::KickstartFailed { code: *code },
            ServiceError::ReloadKickstartFailed { code, reload_code } =>
                ServiceError::ReloadKickstartFailed { code: *code, reload_code: *reload_code },
            ServiceError::RestartFailed { code } => ServiceError::RestartFailed { code: *code },
            ServiceError::KillFailed { code } => ServiceError::KillFailed { code: *code },
            ServiceError::BootoutDisableFailed { bootout_code, disable_code } =>
                ServiceError::BootoutDisableFailed {
                    bootout_code: *bootout_code,
                    disable_code: *disable_code,
                },
            ServiceError::Io { message } => ServiceError::Io { message: message.clone() },
        }
    }
}

} // verus!
