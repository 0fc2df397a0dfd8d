//! Signal-name parsing and catalog lookups.

use tino::cli::parse_signal;
use tino::signals::{
    canonical_signal_name, forwarded_signals, signal_by_name, signal_from_canonical,
    signal_from_str, trap_signals, SIGCHLD, SIGKILL, SIGTERM, SIGUSR1,
};

#[test]
fn parse_signal_accepts_known_variants() {
    assert_eq!(parse_signal("TERM").unwrap(), "SIGTERM");
    assert_eq!(parse_signal("sigterm").unwrap(), "SIGTERM");
    assert_eq!(parse_signal("SIGUSR1").unwrap(), "SIGUSR1");
}

#[test]
fn parse_signal_rejects_unknown_values() {
    assert!(parse_signal("NOPE").is_err());
    assert!(parse_signal("").is_err());
}

#[test]
fn unix_signal_lookup_accepts_variants_with_or_without_prefix() {
    assert_eq!(signal_by_name("TERM"), Some(SIGTERM));
    assert_eq!(signal_by_name("SIGTERM"), Some(SIGTERM));
}

#[test]
fn unix_signal_lookup_rejects_unknown_signal() {
    assert!(signal_by_name("NOPE").is_none());
}

#[test]
fn mod_signal_lookup_accepts_variants_with_or_without_prefix() {
    assert_eq!(signal_from_str("TERM"), Some(SIGTERM));
    assert_eq!(signal_from_str("SIGTERM"), Some(SIGTERM));
}

#[test]
fn mod_signal_lookup_rejects_unknown_signal() {
    assert!(signal_from_str("NOPE").is_none());
}

#[test]
fn canonicalization_tolerates_case_prefix_and_whitespace() {
    assert_eq!(canonical_signal_name("TERM"), Some("TERM"));
    assert_eq!(canonical_signal_name("sigterm"), Some("TERM"));
    assert_eq!(canonical_signal_name("  SigUsr1\t"), Some("USR1"));
    assert_eq!(canonical_signal_name("\u{a0}term\u{2003}"), Some("TERM"));
    assert_eq!(canonical_signal_name("HUP"), Some("HUP"));
    assert_eq!(canonical_signal_name(""), None);
    assert_eq!(canonical_signal_name("   "), None);
    assert_eq!(canonical_signal_name("SIG"), None);
    assert_eq!(canonical_signal_name("NOPE"), None);
}

#[test]
fn canonicalization_is_idempotent_on_recognized_names() {
    for raw in ["term", "SIGTERM", " hup ", "sigUSR2", "WINCH", "sigttou"] {
        let once = canonical_signal_name(raw).unwrap();
        let twice = canonical_signal_name(once).unwrap();
        assert_eq!(once, twice);
    }
}

#[test]
fn parse_signal_error_lists_supported_names() {
    let err = parse_signal("NOPE").unwrap_err();
    assert_eq!(
        err,
        "invalid signal 'NOPE'; supported values: HUP, INT, QUIT, ILL, TRAP, ABRT, BUS, FPE, KILL, USR1, SEGV, USR2, PIPE, ALRM, TERM, CONT, WINCH, TTIN, TTOU"
    );
    assert_eq!(
        parse_signal("  ").unwrap_err(),
        "signal name cannot be empty"
    );
}

#[test]
fn signal_values_follow_the_catalog() {
    assert_eq!(signal_from_canonical("HUP"), Some(1));
    assert_eq!(signal_from_canonical("KILL"), Some(SIGKILL));
    assert_eq!(signal_from_canonical("TERM"), Some(15));
    assert_eq!(signal_from_canonical("WINCH"), Some(28));
    assert_eq!(signal_from_canonical("hup"), None);
    assert_eq!(signal_from_canonical("SIGTERM"), None);
}

#[test]
fn forwarded_set_and_trap_set_contents() {
    let fwd = forwarded_signals();
    assert_eq!(fwd, vec![1, 2, 3, 15, SIGUSR1, 12, 28, 18, 21, 22]);
    let trap = trap_signals();
    assert_eq!(trap.len(), 11);
    assert_eq!(trap[10], SIGCHLD);
    assert!(!fwd.contains(&SIGCHLD));
    assert!(!fwd.contains(&SIGKILL));
}
