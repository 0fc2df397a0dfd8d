//! Environment-override resolution and its log.

use tino::cli::Cli;
use tino::overrides::{apply_env_overrides, interpret_env_flag, LogEvent};

fn base_cli() -> Cli {
    Cli {
        subreaper: false,
        pdeath: None,
        verbosity: 0,
        warn_on_reap: false,
        pgroup_kill: false,
        remap_exit: Vec::new(),
        grace_ms: 500,
        license: false,
        subreaper_env: None,
        pgroup_env: None,
        verbosity_env: None,
        cmd: vec!["/bin/true".into()],
    }
}

#[test]
fn empty_boolean_override_is_rejected() {
    assert!(interpret_env_flag("   ").is_err());
}

#[test]
fn env_boolean_overrides_take_effect() {
    let mut cli = base_cli();
    cli.subreaper_env = Some("true".into());
    cli.pgroup_env = Some("0".into());

    let log = apply_env_overrides(&mut cli);
    assert!(cli.subreaper);
    assert!(!cli.pgroup_kill);
    assert_eq!(log.subreaper_env, Some(true));
    assert_eq!(log.pgroup_env, Some(false));
    assert!(log.invalid_flags.is_empty());
}

#[test]
fn invalid_boolean_env_is_reported() {
    let mut cli = base_cli();
    cli.subreaper_env = Some("maybe".into());

    let log = apply_env_overrides(&mut cli);
    assert_eq!(
        log.invalid_flags,
        vec![("TINI_SUBREAPER".to_string(), "maybe".to_string())]
    );
    assert!(!cli.subreaper);
}

#[test]
fn verbosity_env_applies_when_flags_absent() {
    let mut cli = base_cli();
    cli.verbosity_env = Some("3".into());

    let log = apply_env_overrides(&mut cli);
    assert_eq!(cli.verbosity, 3);
    assert_eq!(log.verbosity_env, Some(3));
    assert!(log.verbosity_error.is_none());
}

#[test]
fn invalid_verbosity_is_logged_without_panicking() {
    let mut cli = base_cli();
    cli.verbosity_env = Some("noise".into());

    let log = apply_env_overrides(&mut cli);
    assert_eq!(cli.verbosity, 0);
    assert!(log.verbosity_env.is_none());
    assert!(log.verbosity_error.is_some());
}

#[test]
fn verbosity_flag_wins_over_env() {
    let mut cli = base_cli();
    cli.verbosity = 2;
    cli.verbosity_env = Some("3".into());

    let log = apply_env_overrides(&mut cli);
    assert_eq!(cli.verbosity, 2);
    assert!(log.verbosity_env.is_none());
}

#[test]
fn boolean_tokens_are_case_insensitive_and_trimmed() {
    for raw in ["1", "true", "TRUE", " Yes ", "on", "oN"] {
        assert_eq!(interpret_env_flag(raw).unwrap(), true, "token {raw:?}");
    }
    for raw in ["0", "false", "FALSE", " No ", "off", "OfF"] {
        assert_eq!(interpret_env_flag(raw).unwrap(), false, "token {raw:?}");
    }
    for raw in ["2", "truthy", "yes!", "", "  ", "enable"] {
        let err = interpret_env_flag(raw).unwrap_err();
        assert_eq!(err, raw, "token {raw:?} should be handed back");
    }
}

#[test]
fn verbosity_env_parses_like_an_unsigned_byte() {
    let mut cli = base_cli();
    cli.verbosity_env = Some("+2".into());
    apply_env_overrides(&mut cli);
    assert_eq!(cli.verbosity, 2);

    let mut cli = base_cli();
    cli.verbosity_env = Some(" 003 ".into());
    apply_env_overrides(&mut cli);
    assert_eq!(cli.verbosity, 3, "leading zeros and whitespace are fine");

    let mut cli = base_cli();
    cli.verbosity_env = Some("7".into());
    let log = apply_env_overrides(&mut cli);
    assert_eq!(cli.verbosity, 0, "out-of-range values leave verbosity unchanged");
    assert!(log.verbosity_env.is_none());
    assert!(log.verbosity_error.is_some());

    let mut cli = base_cli();
    cli.verbosity_env = Some("256".into());
    let log = apply_env_overrides(&mut cli);
    assert_eq!(cli.verbosity, 0);
    assert!(log.verbosity_error.is_some());

    let mut cli = base_cli();
    cli.verbosity_env = Some("0".into());
    let log = apply_env_overrides(&mut cli);
    assert_eq!(cli.verbosity, 0);
    assert_eq!(log.verbosity_env, Some(0));
}

#[test]
fn applying_overrides_twice_changes_nothing_more() {
    let mut cli = base_cli();
    cli.subreaper_env = Some("yes".into());
    cli.pgroup_env = Some("off".into());
    cli.verbosity_env = Some("2".into());

    apply_env_overrides(&mut cli);
    let subreaper = cli.subreaper;
    let pgroup_kill = cli.pgroup_kill;
    let verbosity = cli.verbosity;

    apply_env_overrides(&mut cli);
    assert_eq!(cli.subreaper, subreaper);
    assert_eq!(cli.pgroup_kill, pgroup_kill);
    assert_eq!(cli.verbosity, verbosity);
}

#[test]
fn emit_reports_overrides_in_order() {
    let mut cli = base_cli();
    cli.subreaper_env = Some("on".into());
    cli.pgroup_env = Some("bogus".into());
    cli.verbosity_env = Some("junk".into());

    let log = apply_env_overrides(&mut cli);
    let events = log.emit();
    assert_eq!(
        events,
        vec![
            LogEvent::SubreaperOverride { enabled: true },
            LogEvent::InvalidFlag {
                env: "TINI_KILL_PROCESS_GROUP".to_string(),
                value: "bogus".to_string(),
            },
            LogEvent::InvalidVerbosity {
                value: "junk".to_string(),
                reason: "not an integer in the range 0..=3".to_string(),
            },
        ]
    );
}

#[test]
fn boolean_tokens_tolerate_unicode_whitespace() {
    assert_eq!(interpret_env_flag("\u{a0}1\u{a0}").unwrap(), true);
    assert_eq!(interpret_env_flag("\u{3000}off\u{2003}").unwrap(), false);
    assert!(interpret_env_flag("\u{a0}\u{2003}").is_err());
}
