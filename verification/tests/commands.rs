use rift_app_indicator::command::{report_outcome, select_operation, usage};
use rift_app_indicator::error::ServiceError;
use rift_app_indicator::service::Operation;

const USAGE: &str = "Usage: rift-app-indicator service <install|uninstall|start|stop|restart>";

#[test]
fn command_words_name_operations() {
    assert_eq!(select_operation(Some("install")).ok(), Some(Operation::Install));
    assert_eq!(select_operation(Some("uninstall")).ok(), Some(Operation::Uninstall));
    assert_eq!(select_operation(Some("start")).ok(), Some(Operation::Start));
    assert_eq!(select_operation(Some("stop")).ok(), Some(Operation::Stop));
    assert_eq!(select_operation(Some("restart")).ok(), Some(Operation::Restart));
}

#[test]
fn unknown_command_prints_usage_and_fails() {
    match select_operation(Some("reload")) {
        Err(report) => {
            assert!(report.stdout.is_empty());
            assert_eq!(report.stderr, vec![String::from("Unknown service command: reload"), String::from(USAGE)]);
            assert_eq!(report.exit_code, 1);
        }
        Ok(_) => panic!("no operation is named reload"),
    }
    assert!(select_operation(Some("Install")).is_err());
}

#[test]
fn missing_command_prints_usage_and_fails() {
    match select_operation(None) {
        Err(report) => {
            assert!(report.stdout.is_empty());
            assert_eq!(report.stderr, vec![String::from(USAGE)]);
            assert_eq!(report.exit_code, 1);
        }
        Ok(_) => panic!("no command given"),
    }
    assert_eq!(usage(), USAGE);
}

#[test]
fn success_reports() {
    let r = report_outcome(Operation::Install, &Ok(()));
    assert_eq!(r.stdout, vec![String::from("Service installed. Start it with `rift-app-indicator service start`.")]);
    assert!(r.stderr.is_empty());
    assert_eq!(r.exit_code, 0);
    assert_eq!(report_outcome(Operation::Uninstall, &Ok(())).stdout, vec![String::from("Service uninstalled.")]);
    assert_eq!(report_outcome(Operation::Start, &Ok(())).stdout, vec![String::from("Service started.")]);
    assert_eq!(report_outcome(Operation::Stop, &Ok(())).stdout, vec![String::from("Service stopped.")]);
    assert_eq!(report_outcome(Operation::Restart, &Ok(())).stdout, vec![String::from("Service restarted.")]);
}

#[test]
fn failure_reports() {
    let r = report_outcome(Operation::Start, &Err(ServiceError::KickstartFailed { code: 3 }));
    assert!(r.stdout.is_empty());
    assert_eq!(r.stderr, vec![String::from("Failed to start service: kickstart failed (exit 3)")]);
    assert_eq!(r.exit_code, 1);
    let r = report_outcome(Operation::Uninstall, &Err(ServiceError::StillRunning));
    assert_eq!(
        r.stderr,
        vec![String::from("Failed to uninstall service: service is still running; stop it first with `rift-app-indicator service stop`")]
    );
    let r = report_outcome(Operation::Install, &Err(ServiceError::HomeNotSet));
    assert_eq!(r.stderr, vec![String::from("Failed to install service: HOME not set")]);
    let r = report_outcome(Operation::Stop, &Err(ServiceError::NotInstalled { plist: String::from("/a.plist") }));
    assert_eq!(r.stderr, vec![String::from("Failed to stop service: service file '/a.plist' is not installed")]);
    let r = report_outcome(Operation::Restart, &Err(ServiceError::RestartFailed { code: 37 }));
    assert_eq!(r.stderr, vec![String::from("Failed to restart service: kickstart -k failed (exit 37)")]);
}
