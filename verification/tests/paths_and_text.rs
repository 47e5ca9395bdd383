use rift_app_indicator::error::ServiceError;
use rift_app_indicator::paths::{domain_target, installed_bin_path, plist_path, service_target};
use rift_app_indicator::plist::{agent_definition, plist_contents};
use rift_app_indicator::text::{decimal_string, push_signed_decimal};

#[test]
fn decimal_of_zero_and_large_numbers() {
    assert_eq!(decimal_string(0), "0");
    assert_eq!(decimal_string(7), "7");
    assert_eq!(decimal_string(10), "10");
    assert_eq!(decimal_string(1234567890), "1234567890");
    assert_eq!(decimal_string(u64::MAX), "18446744073709551615");
}

#[test]
fn signed_decimal_of_negative_numbers() {
    let mut s = String::from("x=");
    push_signed_decimal(&mut s, -42);
    assert_eq!(s, "x=-42");
    let mut t = String::new();
    push_signed_decimal(&mut t, i64::MIN);
    assert_eq!(t, "-9223372036854775808");
    let mut u = String::new();
    push_signed_decimal(&mut u, 0);
    assert_eq!(u, "0");
}

#[test]
fn installed_binary_under_home() {
    assert_eq!(installed_bin_path(b"/Users/alice"), b"/Users/alice/.local/bin/rift-app-indicator".to_vec());
    assert_eq!(installed_bin_path(b"/Users/alice/"), b"/Users/alice/.local/bin/rift-app-indicator".to_vec());
    assert_eq!(installed_bin_path(b""), b".local/bin/rift-app-indicator".to_vec());
}

#[test]
fn plist_under_launch_agents() {
    assert_eq!(
        plist_path(b"/Users/alice"),
        b"/Users/alice/Library/LaunchAgents/com.rift.app-indicator.plist".to_vec()
    );
    assert_eq!(plist_path(b"/"), b"/Library/LaunchAgents/com.rift.app-indicator.plist".to_vec());
}

#[test]
fn paths_keep_bytes_that_are_not_utf8() {
    assert_eq!(
        plist_path(b"/home/\xff\xfe"),
        b"/home/\xff\xfe/Library/LaunchAgents/com.rift.app-indicator.plist".to_vec()
    );
}

#[test]
fn launchd_targets_of_uid() {
    assert_eq!(domain_target(501), "gui/501");
    assert_eq!(service_target(501), "gui/501/com.rift.app-indicator");
    assert_eq!(service_target(0), "gui/0/com.rift.app-indicator");
}

const EXPECTED_PLIST: &str = r#"<?xml version="1.0" encoding="UTF-8"?>
<!DOCTYPE plist PUBLIC "-//Apple//DTD PLIST 1.0//EN" "http://www.apple.com/DTDs/PropertyList-1.0.dtd">
<plist version="1.0">
<dict>
    <key>Label</key>
    <string>com.rift.app-indicator</string>
    <key>ProgramArguments</key>
    <array>
        <string>/Users/alice/.local/bin/rift-app-indicator</string>
    </array>
    <key>EnvironmentVariables</key>
    <dict>
        <key>PATH</key>
        <string>/usr/bin:/bin</string>
    </dict>
    <key>RunAtLoad</key>
    <true/>
    <key>KeepAlive</key>
    <dict>
        <key>SuccessfulExit</key>
        <false/>
        <key>Crashed</key>
        <true/>
    </dict>
    <key>StandardOutPath</key>
    <string>/tmp/rift_app_indicator_alice.out.log</string>
    <key>StandardErrorPath</key>
    <string>/tmp/rift_app_indicator_alice.err.log</string>
    <key>ProcessType</key>
    <string>Interactive</string>
    <key>LimitLoadToSessionType</key>
    <string>Aqua</string>
</dict>
</plist>
"#;

#[test]
fn plist_text_is_the_agent_definition() {
    let text = plist_contents("alice", "/usr/bin:/bin", "/Users/alice/.local/bin/rift-app-indicator");
    assert_eq!(text, EXPECTED_PLIST);
}

#[test]
fn definition_logs_to_tmp_per_user() {
    let text = plist_contents("bob", "/bin", "/x");
    assert!(text.contains("<string>/tmp/rift_app_indicator_bob.out.log</string>"));
    assert!(text.contains("<string>/tmp/rift_app_indicator_bob.err.log</string>"));
    assert!(text.contains("<key>RunAtLoad</key>\n    <true/>"));
}

#[test]
fn definition_needs_user_then_path_then_utf8() {
    let exe: &[u8] = b"/Users/alice/.local/bin/rift-app-indicator";
    let user = Some(String::from("alice"));
    let path = Some(String::from("/usr/bin:/bin"));
    assert!(matches!(agent_definition(&None, &None, b"\xff"), Err(ServiceError::UserNotSet)));
    assert!(matches!(agent_definition(&user, &None, b"\xff"), Err(ServiceError::PathNotSet)));
    assert!(matches!(
        agent_definition(&user, &path, b"/home/\xff/.local/bin/rift-app-indicator"),
        Err(ServiceError::NonUtf8ExecutablePath)
    ));
    match agent_definition(&user, &path, exe) {
        Ok(text) => assert_eq!(text, EXPECTED_PLIST),
        Err(_) => panic!("definition expected"),
    }
}

#[test]
fn error_messages() {
    let cases: Vec<(ServiceError, &str)> = vec![
        (ServiceError::HomeNotSet, "HOME not set"),
        (ServiceError::UserNotSet, "env USER not set"),
        (ServiceError::PathNotSet, "env PATH not set"),
        (ServiceError::NonUtf8ExecutablePath, "non-UTF8 executable path"),
        (
            ServiceError::AlreadyInstalled { plist: String::from("/p.plist") },
            "service file '/p.plist' is already installed",
        ),
        (
            ServiceError::NotInstalled { plist: String::from("/p.plist") },
            "service file '/p.plist' is not installed",
        ),
        (
            ServiceError::StillRunning,
            "service is still running; stop it first with `rift-app-indicator service stop`",
        ),
        (ServiceError::TerminatedBySignal { signal: 9 }, "launchctl terminated by signal 9"),
        (
            ServiceError::KickstartAfterBootstrapFailed { code: 5 },
            "kickstart after bootstrap failed (exit 5)",
        ),
        (ServiceError::KickstartFailed { code: 113 }, "kickstart failed (exit 113)"),
        (
            ServiceError::ReloadKickstartFailed { code: 1, reload_code: -2 },
            "kickstart failed (exit 1), reload+kickstart failed (exit -2)",
        ),
        (ServiceError::RestartFailed { code: 3 }, "kickstart -k failed (exit 3)"),
        (ServiceError::KillFailed { code: 4 }, "kill SIGTERM failed (exit 4)"),
        (
            ServiceError::BootoutDisableFailed { bootout_code: 0, disable_code: 7 },
            "bootout failed (exit 0), disable failed (exit 7)",
        ),
        (ServiceError::Io { message: String::from("Permission denied (os error 13)") }, "Permission denied (os error 13)"),
    ];
    for (e, text) in cases {
        assert_eq!(e.message(), text);
        assert_eq!(e.duplicate().message(), text);
    }
}
