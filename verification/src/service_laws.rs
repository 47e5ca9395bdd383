//! What holds of every run of a service task.

use vstd::prelude::*;
use crate::error::ServiceErrorView;
use crate::service::{
    begin, desired_text, first_phase, goto, kickstart_args, next, plist_of, plist_shown, request,
    resume,
    ActionView, EnvironmentView, EventView, Operation, Phase, Resume, TaskView,
};

verus! {

/// The task after answering with each event of `events` in turn.
pub open spec fn after_answers(t: TaskView, events: Seq<EventView>) -> TaskView
    decreases events.len(),
{
    if events.len() == 0 {
        t
    } else {
        next(after_answers(t, events.drop_last()), events.last())
    }
}

/// An upper bound on the answers a task in `p` still needs before it is over.
pub open spec fn rank(p: Phase) -> nat {
    match p {
        Phase::InstallCheckPlist => 10,
        Phase::InstallExecutable(_) => 9,
        Phase::ReadPlist(_) => 8,
        Phase::WritePlist(_) => 7,
        Phase::StartProbe { .. } => 6,
        Phase::StartKickstart { .. } => 5,
        Phase::StartBootout { .. } => 4,
        Phase::StartRebootstrap { .. } => 3,
        Phase::StartResettle { .. } => 2,
        Phase::StartKickstartReloaded { .. } => 1,
        Phase::StartEnable => 4,
        Phase::StartBootstrap => 3,
        Phase::StartSettle => 2,
        Phase::StartKickstartFresh => 1,
        Phase::StopCheckPlist => 4,
        Phase::StopProbe => 3,
        Phase::StopKill => 1,
        Phase::StopBootout => 2,
        Phase::StopDisable { .. } => 1,
        Phase::RestartCheckPlist => 2,
        Phase::RestartKickstart => 1,
        Phase::UninstallCheckPlist => 3,
        Phase::UninstallProbe => 2,
        Phase::UninstallRemove => 1,
    }
}

/// A finished task stays finished, with the same outcome, whatever it is told.
pub proof fn finished_is_final(t: TaskView, events: Seq<EventView>)
    requires
        t.outcome is Some,
    ensures
        after_answers(t, events) == t,
        request(after_answers(t, events)) == ActionView::Finish(t.outcome->0),
    decreases events.len(),
{
    if events.len() > 0 {
        finished_is_final(t, events.drop_last());
    }
}

/// Every answer either leaves the task as it was, or finishes it, or
/// brings it to a phase of lower rank: so every operation is over after
/// at most `rank` of its first phase plus one answers that it takes.
pub proof fn every_answer_makes_progress(t: TaskView, e: EventView)
    ensures
        next(t, e) == t || (t.outcome is None && (next(t, e).outcome is Some || rank(
            next(t, e).phase,
        ) < rank(t.phase))),
{
}

/// Without `HOME` an operation fails at once with `HOME not set`, and
/// asks for nothing else whatever it is told.
pub proof fn no_home_no_operation(env: EnvironmentView, op: Operation, events: Seq<EventView>)
    requires
        env.home is None,
    ensures
        request(after_answers(begin(env, op), events)) == ActionView::Finish(
            Err(ServiceErrorView::HomeNotSet),
        ),
{
    finished_is_final(begin(env, op), events);
}

pub open spec fn is_launchctl_or_removal(a: ActionView) -> bool {
    ||| a is RunLaunchctl
    ||| a is SpawnLaunchctl
    ||| a is RemovePlist
}

/// The phases of a stop, restart or uninstall once its definition check
/// has passed.
pub open spec fn past_check(op: Operation, p: Phase) -> bool {
    match op {
        Operation::Stop => p == Phase::StopProbe || p == Phase::StopKill || p == Phase::StopBootout
            || p is StopDisable,
        Operation::Restart => p == Phase::RestartKickstart,
        Operation::Uninstall => p == Phase::UninstallProbe || p == Phase::UninstallRemove,
        _ => false,
    }
}

pub open spec fn answered_installed(events: Seq<EventView>) -> bool {
    exists|j: int| 0 <= j < events.len() && events[j] == EventView::IsFile(true)
}

proof fn gate_invariant(env: EnvironmentView, op: Operation, events: Seq<EventView>)
    requires
        op == Operation::Stop || op == Operation::Restart || op == Operation::Uninstall,
    ensures
        ({
            let t = after_answers(begin(env, op), events);
            ||| t.phase == first_phase(op)
            ||| past_check(op, t.phase) && answered_installed(events)
        }),
    decreases events.len(),
{
    if events.len() > 0 {
        let prev = events.drop_last();
        gate_invariant(env, op, prev);
        let t = after_answers(begin(env, op), prev);
        if past_check(op, t.phase) {
            let j = choose|j: int| 0 <= j < prev.len() && prev[j] == EventView::IsFile(true);
            assert(events[j] == EventView::IsFile(true));
        } else if next(t, events.last()).phase != t.phase {
            assert(events[events.len() - 1] == EventView::IsFile(true));
        }
    }
}

/// Stop, restart and uninstall touch launchd or the agent definition only
/// after the definition was found in place: whenever such a task asks to
/// run `launchctl` or to remove the definition, an earlier answer said the
/// definition is a file.
pub proof fn nothing_is_done_without_the_definition(
    env: EnvironmentView,
    op: Operation,
    events: Seq<EventView>,
)
    requires
        op == Operation::Stop || op == Operation::Restart || op == Operation::Uninstall,
        is_launchctl_or_removal(request(after_answers(begin(env, op), events))),
    ensures
        answered_installed(events),
{
    gate_invariant(env, op, events);
}

pub open spec fn says_not_running(e: EventView) -> bool {
    ||| e matches EventView::Exited(c) && c != 0
    ||| e is Failed
}

pub open spec fn checked_then_not_running(events: Seq<EventView>) -> bool {
    exists|j: int, k: int|
        #![trigger events[j], events[k]]
        0 <= j < k < events.len() && events[j] == EventView::IsFile(true) && says_not_running(
            events[k],
        )
}

proof fn uninstall_invariant(env: EnvironmentView, events: Seq<EventView>)
    ensures
        ({
            let t = after_answers(begin(env, Operation::Uninstall), events);
            ||| t.phase == Phase::UninstallCheckPlist
            ||| t.phase == Phase::UninstallProbe && answered_installed(events)
            ||| t.phase == Phase::UninstallRemove && checked_then_not_running(events)
        }),
    decreases events.len(),
{
    if events.len() > 0 {
        let prev = events.drop_last();
        uninstall_invariant(env, prev);
        let t = after_answers(begin(env, Operation::Uninstall), prev);
        let e = events.last();
        if t.phase == Phase::UninstallProbe {
            let j = choose|j: int| 0 <= j < prev.len() && prev[j] == EventView::IsFile(true);
            assert(events[j] == EventView::IsFile(true));
            if next(t, e).phase == Phase::UninstallRemove {
                assert(says_not_running(events[events.len() - 1]));
            }
        } else if t.phase == Phase::UninstallRemove {
            let (j, k) = choose|j: int, k: int|
                #![trigger prev[j], prev[k]]
                0 <= j < k < prev.len() && prev[j] == EventView::IsFile(true) && says_not_running(
                    prev[k],
                );
            assert(events[j] == EventView::IsFile(true));
            assert(says_not_running(events[k]));
        } else if next(t, e).phase != t.phase {
            assert(events[events.len() - 1] == EventView::IsFile(true));
        }
    }
}

/// Uninstalling never removes the definition of a loaded agent: when the
/// task asks to remove it, the definition was found in place and, after
/// that, `launchctl print` reported the agent as not loaded (a non-zero
/// exit, or a failure to run).
pub proof fn uninstall_removes_only_a_stopped_agent(env: EnvironmentView, events: Seq<EventView>)
    requires
        request(after_answers(begin(env, Operation::Uninstall), events)) is RemovePlist,
    ensures
        checked_then_not_running(events),
{
    uninstall_invariant(env, events);
}

/// Installing over an existing installation is refused: once the check
/// finds the definition in place, the task is over with `AlreadyInstalled`
/// and asks for nothing more, whatever it is told next.
pub proof fn install_keeps_an_existing_installation(
    env: EnvironmentView,
    events: Seq<EventView>,
)
    requires
        env.home is Some,
        events.len() >= 1,
        events[0] == EventView::IsFile(true),
    ensures
        request(after_answers(begin(env, Operation::Install), events)) == ActionView::Finish(
            Err(ServiceErrorView::AlreadyInstalled { plist: plist_shown(env) }),
        ),
    decreases events.len(),
{
    if events.len() == 1 {
        assert(events.drop_last().len() == 0);
    } else {
        install_keeps_an_existing_installation(env, events.drop_last());
        let t = after_answers(begin(env, Operation::Install), events.drop_last());
        assert(t.outcome is Some);
    }
}

/// The definition a task writes is the one it later accepts as up to date:
/// reading back what was written leads to no second write.
pub proof fn written_definition_is_kept(t: TaskView, r: Resume)
    requires
        t.outcome is None,
    ensures
        request(goto(t, Phase::WritePlist(r))) matches ActionView::WritePlist { path, contents }
            && next(goto(t, Phase::ReadPlist(r)), EventView::Contents(Some(contents)))
            == resume(goto(t, Phase::ReadPlist(r)), r, false)
            && !(request(next(goto(t, Phase::ReadPlist(r)), EventView::Contents(Some(contents))))
                is WritePlist),
{
}

pub open spec fn start_phase(p: Phase) -> bool {
    ||| p == Phase::InstallExecutable(Resume::Start)
    ||| p == Phase::ReadPlist(Resume::Start)
    ||| p == Phase::WritePlist(Resume::Start)
    ||| p is StartProbe
    ||| p == Phase::StartEnable
    ||| p == Phase::StartBootstrap
    ||| p == Phase::StartSettle
    ||| p == Phase::StartKickstartFresh
    ||| p is StartKickstart
    ||| p is StartBootout
    ||| p is StartRebootstrap
    ||| p is StartResettle
    ||| p is StartKickstartReloaded
}

/// Starting succeeds only on a `launchctl kickstart` that exited with 0.
pub proof fn start_succeeds_only_by_kickstart(t: TaskView, e: EventView)
    requires
        t.outcome is None,
        start_phase(t.phase),
        (next(t, e).outcome matches Some(Ok(_))),
    ensures
        e == EventView::Exited(0),
        request(t) == (ActionView::RunLaunchctl { args: kickstart_args(t.env), suppress_output: false }),
{
}

pub open spec fn stop_phase(p: Phase) -> bool {
    ||| p == Phase::StopCheckPlist
    ||| p == Phase::StopProbe
    ||| p == Phase::StopKill
    ||| p == Phase::StopBootout
    ||| p is StopDisable
}

/// Stopping succeeds only when `launchctl kill SIGTERM` exited with 0, or
/// when both `launchctl bootout` and `launchctl disable` did.
pub proof fn stop_succeeds_only_by_kill_or_unload(t: TaskView, e: EventView)
    requires
        t.outcome is None,
        stop_phase(t.phase),
        (next(t, e).outcome matches Some(Ok(_))),
    ensures
        e == EventView::Exited(0),
        t.phase == Phase::StopKill || t.phase == (Phase::StopDisable { bootout_code: 0 }),
{
}

pub open spec fn install_phase(p: Phase) -> bool {
    ||| p == Phase::InstallCheckPlist
    ||| p == Phase::InstallExecutable(Resume::Install)
    ||| p == Phase::ReadPlist(Resume::Install)
    ||| p == Phase::WritePlist(Resume::Install)
}

/// The request a task for `op` makes after the answers `events`.
pub open spec fn request_after(env: EnvironmentView, op: Operation, events: Seq<EventView>) -> ActionView {
    request(after_answers(begin(env, op), events))
}

/// During the install answered with `events`, the agent definition at its
/// path was brought up to date: a request to write the desired definition
/// there was carried out, or reading it there gave back the desired
/// definition.
pub open spec fn definition_in_place(env: EnvironmentView, events: Seq<EventView>) -> bool {
    exists|i: int|
        #![trigger events[i]]
        0 <= i < events.len() && ((request_after(env, Operation::Install, events.take(i)) == (
        ActionView::WritePlist { path: plist_of(env), contents: desired_text(env) })
            && events[i] == EventView::Completed) || (request_after(
            env,
            Operation::Install,
            events.take(i),
        ) == (ActionView::ReadPlist { path: plist_of(env) }) && events[i] == EventView::Contents(
            Some(desired_text(env)),
        )))
}

proof fn next_keeps_env(t: TaskView, e: EventView)
    ensures
        next(t, e).env == t.env,
{
}

proof fn run_keeps_env(t: TaskView, events: Seq<EventView>)
    ensures
        after_answers(t, events).env == t.env,
    decreases events.len(),
{
    if events.len() > 0 {
        run_keeps_env(t, events.drop_last());
        next_keeps_env(after_answers(t, events.drop_last()), events.last());
    }
}

proof fn install_step(t: TaskView, e: EventView)
    requires
        t.outcome is None,
        install_phase(t.phase),
    ensures
        next(t, e).outcome is None ==> install_phase(next(t, e).phase),
        (next(t, e).outcome matches Some(Ok(_))) ==> (t.phase == Phase::ReadPlist(Resume::Install)
            && e == EventView::Contents(Some(desired_text(t.env)))) || (t.phase == Phase::WritePlist(
            Resume::Install,
        ) && e == EventView::Completed),
        t.phase == Phase::ReadPlist(Resume::Install) ==> request(t) == (ActionView::ReadPlist {
            path: plist_of(t.env),
        }),
        t.phase == Phase::WritePlist(Resume::Install) ==> request(t) == (ActionView::WritePlist {
            path: plist_of(t.env),
            contents: desired_text(t.env),
        }),
{
}

proof fn install_invariant(env: EnvironmentView, events: Seq<EventView>)
    ensures
        ({
            let t = after_answers(begin(env, Operation::Install), events);
            &&& t.outcome is None ==> install_phase(t.phase)
            &&& (t.outcome matches Some(Ok(_))) ==> definition_in_place(env, events)
        }),
    decreases events.len(),
{
    if events.len() > 0 {
        let prev = events.drop_last();
        install_invariant(env, prev);
        let t = after_answers(begin(env, Operation::Install), prev);
        let e = events.last();
        let n = events.len() - 1;
        assert(after_answers(begin(env, Operation::Install), events) == next(t, e));
        assert(events.take(n) =~= prev);
        if t.outcome is Some {
            assert(next(t, e) == t);
            if t.outcome matches Some(Ok(_)) {
                let i = choose|i: int|
                    #![trigger prev[i]]
                    0 <= i < prev.len() && ((request_after(env, Operation::Install, prev.take(i))
                        == (ActionView::WritePlist {
                        path: plist_of(env),
                        contents: desired_text(env),
                    }) && prev[i] == EventView::Completed) || (request_after(
                        env,
                        Operation::Install,
                        prev.take(i),
                    ) == (ActionView::ReadPlist { path: plist_of(env) }) && prev[i]
                        == EventView::Contents(Some(desired_text(env)))));
                assert(events.take(i) =~= prev.take(i));
                assert(events[i] == prev[i]);
            }
        } else {
            install_step(t, e);
            run_keeps_env(begin(env, Operation::Install), prev);
            if next(t, e).outcome matches Some(Ok(_)) {
                assert(request_after(env, Operation::Install, events.take(n)) == request(t));
                assert(events[n] == e);
            }
        }
    }
}

proof fn install_check_requests(env: EnvironmentView)
    requires
        env.home is Some,
    ensures
        request_after(env, Operation::Install, seq![]) == (ActionView::CheckPlistIsFile {
            path: plist_of(env),
        }),
        request_after(env, Operation::Install, seq![EventView::IsFile(true)]) == ActionView::Finish(
            Err(ServiceErrorView::AlreadyInstalled { plist: plist_shown(env) }),
        ),
{
    let one = seq![EventView::IsFile(true)];
    assert(one.drop_last() =~= Seq::<EventView>::empty());
    assert(after_answers(begin(env, Operation::Install), one) == next(begin(env, Operation::Install), one.last()));
}

proof fn uninstall_requests(env: EnvironmentView, print_code: i32)
    requires
        env.home is Some,
        print_code != 0,
    ensures
        request_after(env, Operation::Uninstall, seq![]) == (ActionView::CheckPlistIsFile {
            path: plist_of(env),
        }),
        request_after(
            env,
            Operation::Uninstall,
            seq![EventView::IsFile(true), EventView::Exited(print_code)],
        ) == (ActionView::RemovePlist { path: plist_of(env) }),
        request_after(
            env,
            Operation::Uninstall,
            seq![EventView::IsFile(true), EventView::Exited(print_code), EventView::Completed],
        ) == ActionView::Finish(Ok(())),
{
    let b = begin(env, Operation::Uninstall);
    let one = seq![EventView::IsFile(true)];
    let two = seq![EventView::IsFile(true), EventView::Exited(print_code)];
    let three = seq![EventView::IsFile(true), EventView::Exited(print_code), EventView::Completed];
    assert(one.drop_last() =~= Seq::<EventView>::empty());
    assert(two.drop_last() =~= one);
    assert(three.drop_last() =~= two);
    let t1 = next(b, EventView::IsFile(true));
    assert(t1.phase == Phase::UninstallProbe && t1.outcome is None);
    assert(after_answers(b, one) == t1);
    let t2 = next(t1, EventView::Exited(print_code));
    assert(t2.phase == Phase::UninstallRemove && t2.outcome is None);
    assert(after_answers(b, two) == t2);
    let t3 = next(t2, EventView::Completed);
    assert(after_answers(b, three) == t3);
}

/// Installing and then uninstalling a stopped agent goes through one and
/// the same file: an install that ends well has put the desired agent
/// definition in place at `plist_of(env)`; a later install whose check
/// finds that file refuses with `AlreadyInstalled`; and an uninstall told
/// that the file is there, then that the agent is not loaded, asks to
/// remove exactly that path, and ends well once it is removed.
pub proof fn install_then_uninstall_round_trip(
    env: EnvironmentView,
    install_events: Seq<EventView>,
    print_code: i32,
)
    requires
        after_answers(begin(env, Operation::Install), install_events).outcome matches Some(Ok(_)),
        print_code != 0,
    ensures
        definition_in_place(env, install_events),
        request_after(env, Operation::Install, seq![]) == (ActionView::CheckPlistIsFile {
            path: plist_of(env),
        }),
        request_after(env, Operation::Install, seq![EventView::IsFile(true)]) == ActionView::Finish(
            Err(ServiceErrorView::AlreadyInstalled { plist: plist_shown(env) }),
        ),
        request_after(env, Operation::Uninstall, seq![]) == (ActionView::CheckPlistIsFile {
            path: plist_of(env),
        }),
        request_after(
            env,
            Operation::Uninstall,
            seq![EventView::IsFile(true), EventView::Exited(print_code)],
        ) == (ActionView::RemovePlist { path: plist_of(env) }),
        request_after(
            env,
            Operation::Uninstall,
            seq![EventView::IsFile(true), EventView::Exited(print_code), EventView::Completed],
        ) == ActionView::Finish(Ok(())),
{
    install_invariant(env, install_events);
    if env.home is None {
        finished_is_final(begin(env, Operation::Install), install_events);
    }
    install_check_requests(env);
    uninstall_requests(env, print_code);
}

/// During start, every `launchctl kickstart` that exits with 0 finishes
/// the start with success, whichever kickstart it is (after a bootstrap,
/// of a loaded agent, or after reloading a changed definition).
pub proof fn start_kickstart_success_finishes_start(t: TaskView)
    requires
        t.outcome is None,
        start_phase(t.phase),
        request(t) == (ActionView::RunLaunchctl { args: kickstart_args(t.env), suppress_output: false }),
    ensures
        next(t, EventView::Exited(0)).outcome == Some(Ok::<(), ServiceErrorView>(())),
{
}

/// In stop, a bootout is always followed by `launchctl disable` of the
/// agent, whatever the bootout's exit code; the outcome waits for it.
pub proof fn stop_bootout_is_followed_by_disable(t: TaskView, code: i32)
    requires
        t.outcome is None,
        t.phase == Phase::StopBootout,
    ensures
        next(t, EventView::Exited(code)).outcome is None,
        request(next(t, EventView::Exited(code))) == (ActionView::RunLaunchctl {
            args: seq!["disable"@, crate::paths::service_target_of(t.env.uid)],
            suppress_output: false,
        }),
{
}

/// A task that itself concludes `BootoutDisableFailed` (the answer being
/// no failure passed through) reports the exit code of the `launchctl
/// disable` it ran, and the code of the bootout before it.
pub proof fn bootout_disable_failure_reports_real_codes(
    t: TaskView,
    e: EventView,
    bootout_code: i32,
    disable_code: i32,
)
    requires
        t.outcome is None,
        !(e is Failed),
        next(t, e).outcome == Some(
            Err::<(), ServiceErrorView>(
                ServiceErrorView::BootoutDisableFailed { bootout_code, disable_code },
            ),
        ),
    ensures
        t.phase == (Phase::StopDisable { bootout_code }),
        request(t) == (ActionView::RunLaunchctl {
            args: seq!["disable"@, crate::paths::service_target_of(t.env.uid)],
            suppress_output: false,
        }),
        e == EventView::Exited(disable_code),
        !(bootout_code == 0 && disable_code == 0),
{
}

/// A failed file step fails the operation with that very error: copying the
/// executable, reading or writing the agent definition, and removing it.
pub proof fn failed_file_step_fails_the_operation(t: TaskView, err: ServiceErrorView)
    requires
        t.outcome is None,
        request(t) is InstallExecutable || request(t) is ReadPlist || request(t) is WritePlist
            || request(t) is RemovePlist,
    ensures
        next(t, EventView::Failed(err)).outcome == Some(Err::<(), ServiceErrorView>(err)),
{
}

/// A `launchctl` run whose output is shown (kickstart, kill, bootout when
/// stopping, disable, kickstart -k) fails the operation with its error when
/// it cannot be run; the quiet ones (print, enable, bootout before a reload)
/// do not decide the outcome by failing.
pub proof fn failed_shown_launchctl_fails_the_operation(t: TaskView, err: ServiceErrorView)
    requires
        t.outcome is None,
        request(t) matches ActionView::RunLaunchctl { suppress_output, .. } && !suppress_output,
    ensures
        next(t, EventView::Failed(err)).outcome == Some(Err::<(), ServiceErrorView>(err)),
{
}

/// Uninstall and install end with success only when their last file step
/// was carried out: the task finishes with `Ok` only from an answer
/// `Completed` to a removal or a write, or from reading back the desired
/// definition.
pub proof fn file_steps_must_complete_for_success(t: TaskView, e: EventView)
    requires
        t.outcome is None,
        request(t) is RemovePlist || request(t) is InstallExecutable || request(t) is WritePlist,
        next(t, e).outcome matches Some(Ok(_)),
    ensures
        e == EventView::Completed,
        !(request(t) is InstallExecutable),
{
}

} // verus!
