//! The supervisor's configuration as parsed from the command line, and the
//! value parser for signal-name options.

use vstd::prelude::*;

use crate::signals::{
    canonical_of, canonical_signal_index, signal_name_at, signal_prefixed_at, signal_prefixed_name,
    trim, trimmed_is_empty,
};

verus! {

/// The command-line configuration. The host layer fills it from the parsed
/// arguments and the captured environment overrides, then hands it to the
/// library.
#[derive(Debug)]
pub struct Cli {
    /// Claim orphaned descendants via the child-subreaper flag.
    pub subreaper: bool,
    /// Parent-death signal, canonicalized to its `SIG`-prefixed form.
    pub pdeath: Option<String>,
    /// Verbosity as counted from repeated flags.
    pub verbosity: u8,
    /// Elevate secondary reap logs from debug to warn.
    pub warn_on_reap: bool,
    /// Treat the child's process group as the shutdown target.
    pub pgroup_kill: bool,
    /// Exit codes that must be reported as 0.
    pub remap_exit: Vec<u8>,
    /// Grace period in milliseconds between graceful group shutdown and
    /// forced kill.
    pub grace_ms: u64,
    /// Print the license text and exit.
    pub license: bool,
    /// Raw value of the subreaper environment override, if set.
    pub subreaper_env: Option<String>,
    /// Raw value of the process-group-kill environment override, if set.
    pub pgroup_env: Option<String>,
    /// Raw value of the verbosity environment override, if set.
    pub verbosity_env: Option<String>,
    /// The user command and its arguments.
    pub cmd: Vec<String>,
}

impl Cli {
    /// Verbosity saturated at the highest supported level.
    pub fn resolved_verbosity(&self) -> (v: u8)
        ensures
            v == (if self.verbosity > 3 {
                3u8
            } else {
                self.verbosity
            }),
    {
        if self.verbosity > 3 {
            3
        } else {
            self.verbosity
        }
    }
}

/// The catalog tokens joined for the invalid-signal message.
pub open spec fn joined_signal_names() -> Seq<char> {
    "HUP, INT, QUIT, ILL, TRAP, ABRT, BUS, FPE, KILL, USR1, SEGV, USR2, PIPE, ALRM, TERM, CONT, WINCH, TTIN, TTOU"@
}

/// Parses a signal-name option value: a recognized name, in any letter case,
/// with or without the `SIG` prefix and surrounding whitespace, yields its
/// `SIG`-prefixed canonical form; anything else is an error message.
pub fn parse_signal(raw: &str) -> (r: Result<String, String>)
    ensures
        match r {
            Ok(s) => exists|i: int|
                0 <= i < 19 && canonical_of(raw@) == Some(signal_name_at(i)) && s@
                    == signal_prefixed_at(i),
            Err(m) => canonical_of(raw@) is None && (if trim(raw@).len() == 0 {
                m@ == "signal name cannot be empty"@
            } else {
                m@ == "invalid signal '"@ + raw@ + "'; supported values: "@
                    + joined_signal_names()
            }),
        },
{
    if trimmed_is_empty(raw) {
        return Err(String::from_str("signal name cannot be empty"));
    }
    match canonical_signal_index(raw) {
        Some(i) => Ok(String::from_str(signal_prefixed_name(i))),
        None => {
            let mut m = String::from_str("invalid signal '");
            m.append(raw);
            m.append("'; supported values: ");
            m.append(
                "HUP, INT, QUIT, ILL, TRAP, ABRT, BUS, FPE, KILL, USR1, SEGV, USR2, PIPE, ALRM, TERM, CONT, WINCH, TTIN, TTOU",
            );
            proof {
                assert(m@ =~= "invalid signal '"@ + raw@ + "'; supported values: "@
                    + joined_signal_names());
            }
            Err(m)
        },
    }
}

} // verus!
