use rot_management::backend::{
    classify, reboot, reboot_command, reboot_pending, status_command, CommandError,
    CommandOutcome, IoError, PERMISSION_DENIED_STATUS,
};

fn outcome(success: bool, raw: i32, stdout: &str, stderr: &str) -> Result<CommandOutcome, IoError> {
    Ok(CommandOutcome {
        exit_success: success,
        exit_code_raw: raw,
        stdout: stdout.to_string(),
        stderr: stderr.to_string(),
    })
}

#[test]
fn one_deployment_needs_no_reboot() {
    assert!(!reboot_pending(
        "State: idle\nDeployments:\n\u{25cf} fedora:a\n   BaseCommit: x\n"
    ));
}

#[test]
fn booted_first_needs_no_reboot() {
    assert!(!reboot_pending(
        "State: idle\nDeployments:\n\u{25cf} fedora:a\n  fedora:b\n"
    ));
}

#[test]
fn staged_before_booted_needs_a_reboot() {
    assert!(reboot_pending(
        "State: idle\nDeployments:\n  fedora:b\n\u{25cf} fedora:a\n"
    ));
    assert!(reboot_pending("Deployments:\n* staged\n\u{25cf} fedora:a\n"));
    assert!(reboot_pending(
        "Deployments:\n  ostree://fedora:b\n\u{25cf} fedora:a\n"
    ));
}

#[test]
fn version_lines_count_as_entries() {
    assert!(reboot_pending(
        "Deployments:\n   Version: 42.2\n\u{25cf} fedora:a\n"
    ));
}

#[test]
fn entries_before_the_section_do_not_count() {
    assert!(!reboot_pending("  fedora:b\nDeployments:\n\u{25cf} fedora:a\n"));
}

#[test]
fn scan_stops_after_the_section() {
    assert!(!reboot_pending(
        "Deployments:\n  fedora:b\nAutomaticUpdates: disabled\n\u{25cf} fedora:a\n"
    ));
    assert!(!reboot_pending(
        "Deployments:\n  fedora:b\nState: idle\n\u{25cf} fedora:a\n"
    ));
}

#[test]
fn no_booted_entry_needs_no_reboot() {
    assert!(!reboot_pending("Deployments:\n  fedora:b\n  fedora:a\n"));
    assert!(!reboot_pending(""));
}

#[test]
fn status_and_reboot_commands() {
    let status = status_command();
    assert_eq!(status.program, "rpm-ostree");
    assert_eq!(status.args, vec!["status"]);
    let reboot = reboot_command();
    assert_eq!(reboot.program, "systemctl");
    assert_eq!(reboot.args, vec!["reboot"]);
}

#[test]
fn exit_code_126_is_permission_denied() {
    assert_eq!(PERMISSION_DENIED_STATUS, 126 << 8);
    let result = outcome(false, 32256, "", "Request dismissed");
    assert!(matches!(
        classify(&result),
        Err(CommandError::PermissionDenied)
    ));
    assert!(matches!(reboot(&result), Err(CommandError::PermissionDenied)));
}

#[test]
fn success_is_ok() {
    assert!(classify(&outcome(true, 0, "done", "warning")).is_ok());
    assert!(reboot(&outcome(true, 0, "", "")).is_ok());
}

#[test]
fn failure_prefers_stderr_then_stdout_then_fixed_text() {
    match classify(&outcome(false, 256, " out \n", " err \n")) {
        Err(CommandError::CommandFailed(m)) => assert_eq!(m, "err"),
        other => panic!("unexpected: {:?}", other),
    }
    match classify(&outcome(false, 256, " out \n", "")) {
        Err(CommandError::CommandFailed(m)) => assert_eq!(m, "out"),
        other => panic!("unexpected: {:?}", other),
    }
    match classify(&outcome(false, 256, "", "")) {
        Err(CommandError::CommandFailed(m)) => assert_eq!(m, "unknown error"),
        other => panic!("unexpected: {:?}", other),
    }
}

#[test]
fn spawn_failure_is_an_io_error() {
    let missing: Result<CommandOutcome, IoError> = Err(IoError::NotFound("not found".to_string()));
    match classify(&missing) {
        Err(CommandError::Io(IoError::NotFound(m))) => assert_eq!(m, "not found"),
        other => panic!("unexpected: {:?}", other),
    }
    let other: Result<CommandOutcome, IoError> = Err(IoError::Other("broken pipe".to_string()));
    match classify(&other) {
        Err(e) => {
            assert!(matches!(e, CommandError::Io(IoError::Other(_))));
            assert_eq!(e.message(), "broken pipe");
        }
        Ok(()) => panic!("expected an error"),
    }
}

#[test]
fn reboot_failure_texts() {
    match reboot(&outcome(false, 256, "out", " no can do \n")) {
        Err(CommandError::CommandFailed(m)) => {
            assert_eq!(m, "systemctl reboot failed: no can do")
        }
        other => panic!("unexpected: {:?}", other),
    }
    match reboot(&outcome(false, 256, " out ", "")) {
        Err(CommandError::CommandFailed(m)) => assert_eq!(m, "systemctl reboot failed: out"),
        other => panic!("unexpected: {:?}", other),
    }
    match reboot(&outcome(false, 256, "", "")) {
        Err(CommandError::CommandFailed(m)) => {
            assert_eq!(m, "systemctl reboot failed with unknown error")
        }
        other => panic!("unexpected: {:?}", other),
    }
}

#[test]
fn error_messages() {
    assert_eq!(CommandError::PermissionDenied.message(), "Permission denied");
    assert_eq!(
        CommandError::CommandFailed("boom".to_string()).message(),
        "boom"
    );
}

#[test]
fn staged_deployment_in_full_output() {
    let staged = "State: idle\nDeployments:\n  fedora:fedora/42/x86_64/silverblue\n                  Version: 42.20250102.0 (2025-01-02T00:35:53Z)\n               BaseCommit: 999\n\n\u{25cf} fedora:fedora/42/x86_64/silverblue\n                  Version: 42.20250101.0 (2025-01-01T00:35:53Z)\n               BaseCommit: 1a2b3c\n";
    assert!(reboot_pending(staged));
    let settled = "State: idle\nDeployments:\n\u{25cf} fedora:fedora/42/x86_64/silverblue\n                  Version: 42.20250101.0 (2025-01-01T00:35:53Z)\n               BaseCommit: 1a2b3c\n\n  fedora:fedora/42/x86_64/silverblue\n                  Version: 42.20241201.0 (2024-12-01T00:35:53Z)\n               BaseCommit: 4d5e6f\n";
    assert!(!reboot_pending(settled));
}
