use rift_app_indicator::error::ServiceError;
use rift_app_indicator::service::{
    begin_operation, launchctl_event, service_install, service_is_running, service_restart,
    service_start, service_stop, service_uninstall, Action, Environment, Event, Operation,
    ServiceTask,
};

const PLIST: &str = "/Users/alice/Library/LaunchAgents/com.rift.app-indicator.plist";
const EXE: &str = "/Users/alice/.local/bin/rift-app-indicator";

fn env() -> Environment {
    Environment {
        home: Some(b"/Users/alice".to_vec()),
        user: Some(String::from("alice")),
        path_env: Some(String::from("/usr/bin:/bin")),
        uid: 501,
    }
}

fn text(path: &[u8]) -> String {
    String::from_utf8_lossy(path).into_owned()
}

fn describe(a: &Action) -> String {
    match a {
        Action::CheckPlistIsFile { path } => format!("check {}", text(path)),
        Action::InstallExecutable { path } => format!("install {}", text(path)),
        Action::ReadPlist { path } => format!("read {}", text(path)),
        Action::WritePlist { path, .. } => format!("write {}", text(path)),
        Action::RunLaunchctl { args, suppress_output } => {
            format!("run {}{}", args.join(" "), if *suppress_output { " (quiet)" } else { "" })
        }
        Action::SpawnLaunchctl { args } => format!("spawn {}", args.join(" ")),
        Action::Sleep { millis } => format!("sleep {millis}"),
        Action::RemovePlist { path } => format!("remove {}", text(path)),
        Action::Finish(Ok(())) => String::from("ok"),
        Action::Finish(Err(e)) => format!("error: {}", e.message()),
    }
}

fn drive(mut task: ServiceTask, events: Vec<Event>) -> Vec<String> {
    assert!(task.can_request());
    let mut seen = vec![describe(&task.request())];
    for e in events {
        task.advance(e);
        assert!(task.can_request());
        seen.push(describe(&task.request()));
    }
    seen
}

fn desired() -> String {
    match task_write_contents() {
        Some(c) => c,
        None => panic!("a write is requested"),
    }
}

fn task_write_contents() -> Option<String> {
    let mut t = service_install(env());
    t.advance(Event::IsFile(false));
    t.advance(Event::Completed);
    t.advance(Event::Contents(None));
    match t.request() {
        Action::WritePlist { contents, .. } => Some(contents),
        _ => None,
    }
}

#[test]
fn install_copies_and_writes_definition() {
    let seen = drive(
        service_install(env()),
        vec![Event::IsFile(false), Event::Completed, Event::Contents(None), Event::Completed],
    );
    assert_eq!(
        seen,
        vec![
            format!("check {PLIST}"),
            format!("install {EXE}"),
            format!("read {PLIST}"),
            format!("write {PLIST}"),
            String::from("ok"),
        ]
    );
    assert!(desired().contains("/tmp/rift_app_indicator_alice.out.log"));
}

#[test]
fn install_refuses_existing_definition() {
    let seen = drive(service_install(env()), vec![Event::IsFile(true), Event::Completed]);
    assert_eq!(
        seen,
        vec![
            format!("check {PLIST}"),
            format!("error: service file '{PLIST}' is already installed"),
            format!("error: service file '{PLIST}' is already installed"),
        ]
    );
}

#[test]
fn install_without_user_fails_after_copying() {
    let mut e = env();
    e.user = None;
    let seen = drive(service_install(e), vec![Event::IsFile(false), Event::Completed]);
    assert_eq!(seen[2], "error: env USER not set");
}

#[test]
fn non_utf8_home_fails_the_definition() {
    let mut e = env();
    e.home = Some(b"/Users/\xffx".to_vec());
    let mut task = service_start(e);
    match task.request() {
        Action::InstallExecutable { path } => {
            assert_eq!(path, b"/Users/\xffx/.local/bin/rift-app-indicator".to_vec())
        }
        _ => panic!("the executable is installed first"),
    }
    task.advance(Event::Completed);
    assert_eq!(describe(&task.request()), "error: non-UTF8 executable path");
}

#[test]
fn non_utf8_home_paths_are_the_real_ones() {
    let mut e = env();
    e.home = Some(b"/Users/\xffx".to_vec());
    let mut task = service_stop(e);
    match task.request() {
        Action::CheckPlistIsFile { path } => assert_eq!(
            path,
            b"/Users/\xffx/Library/LaunchAgents/com.rift.app-indicator.plist".to_vec()
        ),
        _ => panic!("the definition is checked first"),
    }
    task.advance(Event::IsFile(true));
    task.advance(Event::Exited(0));
    assert_eq!(describe(&task.request()), "run kill SIGTERM gui/501/com.rift.app-indicator");
    let mut e2 = env();
    e2.home = Some(b"/Users/\xffx".to_vec());
    let mut unloaded = service_stop(e2);
    unloaded.advance(Event::IsFile(true));
    unloaded.advance(Event::Exited(113));
    assert!(!unloaded.can_request());
}

#[test]
fn non_utf8_path_shows_with_replacement() {
    let mut e = env();
    e.home = Some(b"/Users/\xffx".to_vec());
    let seen = drive(service_restart(e), vec![Event::IsFile(false)]);
    assert_eq!(
        seen[1],
        "error: service file '/Users/\u{fffd}x/Library/LaunchAgents/com.rift.app-indicator.plist' is not installed"
    );
}

#[test]
fn up_to_date_definition_is_not_rewritten() {
    let seen = drive(
        service_install(env()),
        vec![Event::IsFile(false), Event::Completed, Event::Contents(Some(desired()))],
    );
    assert_eq!(seen[3], "ok");
    let stale = drive(
        service_install(env()),
        vec![Event::IsFile(false), Event::Completed, Event::Contents(Some(String::from("old")))],
    );
    assert_eq!(stale[3], format!("write {PLIST}"));
}

#[test]
fn read_failure_fails_the_operation() {
    let seen = drive(
        service_install(env()),
        vec![
            Event::IsFile(false),
            Event::Completed,
            Event::Failed(ServiceError::Io { message: String::from("Permission denied (os error 13)") }),
        ],
    );
    assert_eq!(seen[3], "error: Permission denied (os error 13)");
}

#[test]
fn start_bootstraps_an_unloaded_agent() {
    let seen = drive(
        service_start(env()),
        vec![
            Event::Completed,
            Event::Contents(None),
            Event::Completed,
            Event::Exited(113),
            Event::Exited(0),
            Event::Completed,
            Event::Completed,
            Event::Exited(0),
        ],
    );
    assert_eq!(
        seen,
        vec![
            format!("install {EXE}"),
            format!("read {PLIST}"),
            format!("write {PLIST}"),
            String::from("run print gui/501/com.rift.app-indicator (quiet)"),
            String::from("run enable gui/501/com.rift.app-indicator (quiet)"),
            format!("spawn bootstrap gui/501 {PLIST}"),
            String::from("sleep 150"),
            String::from("run kickstart gui/501/com.rift.app-indicator"),
            String::from("ok"),
        ]
    );
}

#[test]
fn start_reports_failed_kickstart_after_bootstrap() {
    let seen = drive(
        service_start(env()),
        vec![
            Event::Completed,
            Event::Contents(Some(desired())),
            Event::Failed(ServiceError::Io { message: String::from("No such file or directory (os error 2)") }),
            Event::Failed(ServiceError::Io { message: String::from("x") }),
            Event::Failed(ServiceError::Io { message: String::from("y") }),
            Event::Completed,
            Event::Exited(5),
        ],
    );
    assert_eq!(seen[2], "run print gui/501/com.rift.app-indicator (quiet)");
    assert_eq!(seen[3], "run enable gui/501/com.rift.app-indicator (quiet)");
    assert_eq!(seen[7], "error: kickstart after bootstrap failed (exit 5)");
}

#[test]
fn start_kickstarts_a_loaded_agent() {
    let seen = drive(
        service_start(env()),
        vec![Event::Completed, Event::Contents(Some(desired())), Event::Exited(0), Event::Exited(0)],
    );
    assert_eq!(seen[3], "run kickstart gui/501/com.rift.app-indicator");
    assert_eq!(seen[4], "ok");
    let failed = drive(
        service_start(env()),
        vec![Event::Completed, Event::Contents(Some(desired())), Event::Exited(0), Event::Exited(3)],
    );
    assert_eq!(failed[4], "error: kickstart failed (exit 3)");
}

#[test]
fn start_reloads_a_changed_definition_when_kickstart_fails() {
    let seen = drive(
        service_start(env()),
        vec![
            Event::Completed,
            Event::Contents(Some(String::from("old"))),
            Event::Completed,
            Event::Exited(0),
            Event::Exited(3),
            Event::Exited(0),
            Event::Completed,
            Event::Completed,
            Event::Exited(4),
        ],
    );
    assert_eq!(seen[5], format!("run bootout gui/501 {PLIST} (quiet)"));
    assert_eq!(seen[6], format!("spawn bootstrap gui/501 {PLIST}"));
    assert_eq!(seen[7], "sleep 150");
    assert_eq!(seen[8], "run kickstart gui/501/com.rift.app-indicator");
    assert_eq!(seen[9], "error: kickstart failed (exit 3), reload+kickstart failed (exit 4)");
}

#[test]
fn stop_kills_a_loaded_agent() {
    let seen = drive(service_stop(env()), vec![Event::IsFile(true), Event::Exited(0), Event::Exited(0)]);
    assert_eq!(
        seen,
        vec![
            format!("check {PLIST}"),
            String::from("run print gui/501/com.rift.app-indicator (quiet)"),
            String::from("run kill SIGTERM gui/501/com.rift.app-indicator"),
            String::from("ok"),
        ]
    );
    let failed = drive(service_stop(env()), vec![Event::IsFile(true), Event::Exited(0), Event::Exited(3)]);
    assert_eq!(failed[3], "error: kill SIGTERM failed (exit 3)");
}

#[test]
fn stop_boots_out_and_disables_an_unloaded_agent() {
    let seen = drive(
        service_stop(env()),
        vec![Event::IsFile(true), Event::Exited(113), Event::Exited(0), Event::Exited(0)],
    );
    assert_eq!(seen[2], format!("run bootout gui/501 {PLIST}"));
    assert_eq!(seen[3], "run disable gui/501/com.rift.app-indicator");
    assert_eq!(seen[4], "ok");
    let failed = drive(
        service_stop(env()),
        vec![Event::IsFile(true), Event::Exited(113), Event::Exited(5), Event::Exited(0)],
    );
    assert_eq!(failed[4], "error: bootout failed (exit 5), disable failed (exit 0)");
}

#[test]
fn stop_restart_uninstall_need_the_definition() {
    for task in [service_stop(env()), service_restart(env()), service_uninstall(env())] {
        let seen = drive(task, vec![Event::IsFile(false)]);
        assert_eq!(seen[1], format!("error: service file '{PLIST}' is not installed"));
    }
}

#[test]
fn restart_kickstarts_with_kill() {
    let seen = drive(service_restart(env()), vec![Event::IsFile(true), Event::Exited(0)]);
    assert_eq!(seen[1], "run kickstart -k gui/501/com.rift.app-indicator");
    assert_eq!(seen[2], "ok");
    let failed = drive(service_restart(env()), vec![Event::IsFile(true), Event::Exited(9)]);
    assert_eq!(failed[2], "error: kickstart -k failed (exit 9)");
}

#[test]
fn uninstall_refuses_a_running_agent() {
    let seen = drive(service_uninstall(env()), vec![Event::IsFile(true), Event::Exited(0)]);
    assert_eq!(
        seen[2],
        "error: service is still running; stop it first with `rift-app-indicator service stop`"
    );
}

#[test]
fn uninstall_removes_the_definition_of_a_stopped_agent() {
    let seen = drive(
        service_uninstall(env()),
        vec![Event::IsFile(true), Event::Exited(113), Event::Completed],
    );
    assert_eq!(seen[2], format!("remove {PLIST}"));
    assert_eq!(seen[3], "ok");
    let via_failure = drive(
        service_uninstall(env()),
        vec![
            Event::IsFile(true),
            Event::Failed(ServiceError::TerminatedBySignal { signal: 9 }),
            Event::Completed,
        ],
    );
    assert_eq!(via_failure[2], format!("remove {PLIST}"));
}

#[test]
fn every_operation_needs_home() {
    let mut e = env();
    e.home = None;
    for op in [Operation::Install, Operation::Uninstall, Operation::Start, Operation::Stop, Operation::Restart] {
        let mut e2 = env();
        e2.home = None;
        let seen = drive(begin_operation(e2, op), vec![Event::IsFile(true), Event::Completed]);
        assert_eq!(seen, vec![String::from("error: HOME not set"); 3]);
    }
    assert!(begin_operation(e, Operation::Stop).is_finished());
}

#[test]
fn answers_of_the_wrong_kind_are_ignored() {
    let seen = drive(
        service_stop(env()),
        vec![Event::Completed, Event::Exited(0), Event::IsFile(true)],
    );
    assert_eq!(seen[1], format!("check {PLIST}"));
    assert_eq!(seen[2], format!("check {PLIST}"));
    assert_eq!(seen[3], "run print gui/501/com.rift.app-indicator (quiet)");
}

#[test]
fn launchctl_exit_or_signal() {
    assert!(matches!(launchctl_event(Some(3), None), Event::Exited(3)));
    assert!(matches!(
        launchctl_event(None, Some(9)),
        Event::Failed(ServiceError::TerminatedBySignal { signal: 9 })
    ));
    assert!(matches!(
        launchctl_event(None, None),
        Event::Failed(ServiceError::TerminatedBySignal { signal: 0 })
    ));
}

#[test]
fn running_only_on_zero_exit() {
    assert!(service_is_running(&Ok(0)));
    assert!(!service_is_running(&Ok(113)));
    assert!(!service_is_running(&Err(ServiceError::Io { message: String::from("x") })));
}

#[test]
fn install_then_uninstall_use_the_same_file() {
    let mut install = service_install(env());
    install.advance(Event::IsFile(false));
    install.advance(Event::Completed);
    install.advance(Event::Contents(None));
    let written = match install.request() {
        Action::WritePlist { path, .. } => path,
        _ => panic!("the definition is written"),
    };
    install.advance(Event::Completed);
    assert!(matches!(install.request(), Action::Finish(Ok(()))));

    let mut again = service_install(env());
    again.advance(Event::IsFile(true));
    assert!(matches!(again.request(), Action::Finish(Err(ServiceError::AlreadyInstalled { .. }))));

    let mut uninstall = service_uninstall(env());
    uninstall.advance(Event::IsFile(true));
    uninstall.advance(Event::Exited(113));
    let removed = match uninstall.request() {
        Action::RemovePlist { path } => path,
        _ => panic!("the definition is removed"),
    };
    assert_eq!(written, removed);
    uninstall.advance(Event::Completed);
    assert!(matches!(uninstall.request(), Action::Finish(Ok(()))));
}
