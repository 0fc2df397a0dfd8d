//! Startup planning, the license text, command validation, and the shim
//! for unsupported hosts.

use std::collections::HashSet;

use tino::cli::Cli;
use tino::license::license_text;
use tino::platform::{
    errno_decimal, plan_startup, poll_failure_is_fatal, run_impl, setsid_failure_is_fatal,
    signal_send_needs_warning, subreaper_failure_is_fatal, validate_command, StartupPlan,
};

fn base_cli() -> Cli {
    Cli {
        subreaper: false,
        pdeath: None,
        verbosity: 0,
        warn_on_reap: false,
        pgroup_kill: false,
        remap_exit: Vec::new(),
        grace_ms: 500,
        license: false,
        subreaper_env: None,
        pgroup_env: None,
        verbosity_env: None,
        cmd: vec!["/bin/true".into()],
    }
}

#[test]
fn stub_reports_linux_requirement() {
    let cli = base_cli();
    let err = run_impl(cli, HashSet::new()).unwrap_err();
    let message = err.message;
    assert!(
        message.contains("supports Unix-like targets"),
        "unexpected stub message: {message}"
    );
}

#[test]
fn unix_license_text_includes_mit_header() {
    assert!(license_text().contains("MIT License"));
}

#[test]
fn mod_license_text_includes_mit_header() {
    assert!(license_text().starts_with("MIT License"));
}

#[test]
fn license_flag_wins_over_everything() {
    let mut cli = base_cli();
    cli.license = true;
    cli.cmd = Vec::new();
    assert!(matches!(plan_startup(cli), StartupPlan::PrintLicense));
}

#[test]
fn missing_command_is_refused() {
    let mut cli = base_cli();
    cli.cmd = Vec::new();
    assert!(matches!(plan_startup(cli), StartupPlan::MissingCmd));
}

#[test]
fn startup_resolves_overrides_and_verbosity() {
    let mut cli = base_cli();
    cli.subreaper_env = Some("yes".into());
    cli.verbosity_env = Some("2".into());
    match plan_startup(cli) {
        StartupPlan::Supervise { cli, log, verbosity } => {
            assert!(cli.subreaper);
            assert_eq!(verbosity, 2);
            assert_eq!(log.subreaper_env, Some(true));
            assert_eq!(log.verbosity_env, Some(2));
        }
        other => panic!("expected a supervise plan, got {other:?}"),
    }

    let mut cli = base_cli();
    cli.verbosity = 9;
    match plan_startup(cli) {
        StartupPlan::Supervise { verbosity, .. } => {
            assert_eq!(verbosity, 3, "repeated flags saturate at 3");
        }
        other => panic!("expected a supervise plan, got {other:?}"),
    }

    let mut cli = base_cli();
    cli.verbosity_env = Some("9".into());
    match plan_startup(cli) {
        StartupPlan::Supervise { cli, log, verbosity } => {
            assert_eq!(cli.verbosity, 0, "out-of-range override leaves verbosity unchanged");
            assert_eq!(verbosity, 0);
            assert!(log.verbosity_env.is_none());
            assert!(log.verbosity_error.is_some());
        }
        other => panic!("expected a supervise plan, got {other:?}"),
    }
}

#[test]
fn embedded_nul_bytes_are_refused_before_the_fork() {
    let good = vec!["sh".to_string(), "-c".to_string(), "exit 0".to_string()];
    assert!(validate_command(&good).is_ok());

    let bad = vec!["sh".to_string(), "ex\0it".to_string()];
    let err = validate_command(&bad).unwrap_err();
    assert_eq!(err.message, "command argument contains embedded NUL byte");
}

#[test]
fn errno_digits_are_formatted_without_allocating() {
    let cases: [(i32, &str); 5] = [(0, "0"), (2, "2"), (13, "13"), (110, "110"), (2147483647, "2147483647")];
    for (value, expect) in cases {
        let (buf, start) = errno_decimal(value);
        assert_eq!(&buf[start..], expect.as_bytes(), "value {value}");
    }
}

#[test]
fn syscall_error_policies() {
    assert!(!poll_failure_is_fatal(4), "EINTR restarts the poll");
    assert!(poll_failure_is_fatal(22));
    assert!(!subreaper_failure_is_fatal(1), "EPERM only warns");
    assert!(subreaper_failure_is_fatal(22));
    assert!(!setsid_failure_is_fatal(1));
    assert!(setsid_failure_is_fatal(22));
    assert!(!signal_send_needs_warning(3), "ESRCH is silently ignored");
    assert!(signal_send_needs_warning(1));
}
