//! The platform boundary: what the supervisor decides about its host —
//! startup planning, command validation, the error policy for each
//! process-control call, and the shim for hosts without the required
//! primitives.

use std::collections::HashSet;

use vstd::prelude::*;

use crate::cli::Cli;
use crate::overrides::{apply_env_overrides, env_log_matches, spec_apply_env, EnvOverrideLog};
use crate::signals::str_chars;

verus! {

/// Error number for an operation denied for lack of permission.
pub const EPERM: i32 = 1;

/// Error number for a process that does not exist.
pub const ESRCH: i32 = 3;

/// Error number for a call interrupted by a signal.
pub const EINTR: i32 = 4;

/// A fatal supervisor error, carrying the diagnostic to write at error
/// level before exiting with status 1.
#[derive(Debug)]
pub struct TinoError {
    /// The diagnostic text.
    pub message: String,
}

impl TinoError {
    /// The error for a start without a user command.
    pub fn missing_cmd() -> (e: TinoError)
        ensures
            e.message@ == "missing CMD (use --help)"@,
    {
        TinoError { message: String::from_str("missing CMD (use --help)") }
    }

    /// The error for a command argument holding an embedded NUL byte.
    pub fn nul_in_command() -> (e: TinoError)
        ensures
            e.message@ == "command argument contains embedded NUL byte"@,
    {
        TinoError { message: String::from_str("command argument contains embedded NUL byte") }
    }

    /// The error for a host without the required process primitives.
    pub fn unsupported_host() -> (e: TinoError)
        ensures
            e.message@
                == "tino supports Unix-like targets only. Build and test inside a Linux container or VM (see README requirements)."@,
    {
        TinoError {
            message: String::from_str(
                "tino supports Unix-like targets only. Build and test inside a Linux container or VM (see README requirements).",
            ),
        }
    }
}

/// A failed poll is fatal unless it was merely interrupted.
pub fn poll_failure_is_fatal(errno: i32) -> (r: bool)
    ensures
        r == (errno != EINTR),
{
    errno != EINTR
}

/// A refused subreaper claim is fatal unless permission was denied; a
/// non-root supervisor still functions without the flag, so that case only
/// warns.
pub fn subreaper_failure_is_fatal(errno: i32) -> (r: bool)
    ensures
        r == (errno != EPERM),
{
    errno != EPERM
}

/// A failed session start is fatal unless the process already leads a
/// session, which the host reports as permission denied.
pub fn setsid_failure_is_fatal(errno: i32) -> (r: bool)
    ensures
        r == (errno != EPERM),
{
    errno != EPERM
}

/// A failed signal send is silently ignored when the target is gone;
/// every other failure is warned about and supervision continues.
pub fn signal_send_needs_warning(errno: i32) -> (r: bool)
    ensures
        r == (errno != ESRCH),
{
    errno != ESRCH
}

/// Whether an argument holds an embedded NUL byte.
pub open spec fn arg_has_nul(s: Seq<char>) -> bool {
    exists|k: int| 0 <= k < s.len() && s[k] == '\0'
}

/// Whether any argument of the command holds an embedded NUL byte.
pub open spec fn command_has_nul(cmd: Seq<String>) -> bool {
    exists|i: int| 0 <= i < cmd.len() && arg_has_nul(cmd[i]@)
}

/// Checks the command's arguments before the fork: an embedded NUL byte is
/// a configuration error, and the supervisor refuses to fork.
pub fn validate_command(cmd: &Vec<String>) -> (r: Result<(), TinoError>)
    ensures
        r is Ok <==> !command_has_nul(cmd@),
        match r {
            Ok(()) => true,
            Err(e) => e.message@ == "command argument contains embedded NUL byte"@,
        },
{
    let n = cmd.len();
    let mut i: usize = 0;
    while i < n
        invariant
            i <= n,
            n == cmd@.len(),
            forall|j: int| 0 <= j < i ==> !arg_has_nul(#[trigger] cmd@[j]@),
        decreases n - i,
    {
        let chars = str_chars(cmd[i].as_str());
        let m = chars.len();
        let mut k: usize = 0;
        while k < m
            invariant
                k <= m,
                i < n,
                n == cmd@.len(),
                m == chars@.len(),
                chars@ == cmd@[i as int]@,
                forall|t: int| 0 <= t < k ==> chars@[t] != '\0',
            decreases m - k,
        {
            if chars[k] == '\0' {
                proof {
                    assert(arg_has_nul(cmd@[i as int]@));
                }
                return Err(TinoError::nul_in_command());
            }
            k += 1;
        }
        i += 1;
    }
    Ok(())
}

/// The decimal digits of a non-negative number, most significant first;
/// empty for 0.
pub open spec fn decimal_digits(n: int) -> Seq<u8>
    decreases n,
{
    if n <= 0 {
        Seq::<u8>::empty()
    } else {
        decimal_digits(n / 10).push((48 + n % 10) as u8)
    }
}

/// The decimal text of a non-negative error number; 0 is written `0`.
pub open spec fn errno_text(n: int) -> Seq<u8> {
    if n == 0 {
        seq![48u8]
    } else {
        decimal_digits(n)
    }
}

/// Powers of ten.
pub open spec fn pow10(k: nat) -> int
    decreases k,
{
    if k == 0 {
        1
    } else {
        10 * pow10((k - 1) as nat)
    }
}

/// Formats a non-negative error number in decimal, without allocating: the
/// digits stand in `buf[start..]` of the returned pair.
pub fn errno_decimal(value: i32) -> (r: ([u8; 12], usize))
    requires
        value >= 0,
    ensures
        r.1 <= 12,
        r.0@.subrange(r.1 as int, 12) == errno_text(value as int),
{
    let mut buf: [u8; 12] = [0; 12];
    let mut idx: usize = 12;
    if value == 0 {
        idx = 11;
        buf[idx] = 48;
        proof {
            assert(buf@.subrange(11, 12) =~= errno_text(0));
        }
        return (buf, idx);
    }
    let mut v: i32 = value;
    proof {
        reveal_with_fuel(pow10, 13);
        assert(pow10(12) == 1000000000000);
    }
    while v > 0
        invariant
            0 <= v,
            0 <= idx <= 12,
            v < pow10(idx as nat),
            decimal_digits(value as int) == decimal_digits(v as int) + buf@.subrange(
                idx as int,
                12,
            ),
        decreases v,
    {
        proof {
            if idx == 0 {
                assert(pow10(0) == 1);
            }
        }
        let digit: i32 = v % 10;
        idx = idx - 1;
        buf[idx] = 48 + digit as u8;
        v = v / 10;
        proof {
            assert(decimal_digits(value as int) == decimal_digits(v as int) + buf@.subrange(
                idx as int,
                12,
            ));
        }
    }
    proof {
        assert(decimal_digits(value as int) == buf@.subrange(idx as int, 12));
    }
    (buf, idx)
}

/// What the supervisor is to do, resolved from the configuration before
/// anything touches the host.
#[derive(Debug)]
pub enum StartupPlan {
    /// Print the license text and exit with status 0.
    PrintLicense,
    /// No user command was given: fail with status 1.
    MissingCmd,
    /// Supervise the command of the resolved configuration, logging at the
    /// resolved verbosity, after writing out the override log.
    Supervise { cli: Cli, log: EnvOverrideLog, verbosity: u8 },
}

/// Resolves what a start with this configuration does: the license request
/// wins; otherwise the environment overrides are applied, a start without
/// a command is refused, and the verbosity is saturated at 3.
pub fn plan_startup(cli: Cli) -> (p: StartupPlan)
    ensures
        match p {
            StartupPlan::PrintLicense => cli.license,
            StartupPlan::MissingCmd => !cli.license && spec_apply_env(cli).cmd@.len() == 0,
            StartupPlan::Supervise { cli: resolved, log, verbosity } => {
                &&& !cli.license
                &&& spec_apply_env(cli).cmd@.len() > 0
                &&& resolved == spec_apply_env(cli)
                &&& env_log_matches(cli, log)
                &&& verbosity == (if spec_apply_env(cli).verbosity > 3 {
                    3u8
                } else {
                    spec_apply_env(cli).verbosity
                })
            },
        },
{
    if cli.license {
        return StartupPlan::PrintLicense;
    }
    let mut cli = cli;
    let log = apply_env_overrides(&mut cli);
    if cli.cmd.len() == 0 {
        return StartupPlan::MissingCmd;
    }
    let verbosity = cli.resolved_verbosity();
    StartupPlan::Supervise { cli, log, verbosity }
}

/// The entry for a host that lacks the required process primitives: such a
/// build refuses cleanly, whatever the configuration, with the fixed
/// diagnostic. The full supervisor runs only where a host layer can
/// perform the fork, the signal setup and the reaping that the state
/// machine in this crate directs.
pub fn run_impl(_cli: Cli, _expect_zero: HashSet<u8>) -> (r: Result<i32, TinoError>)
    ensures
        match r {
            Ok(code) => false,
            Err(e) => e.message@
                == "tino supports Unix-like targets only. Build and test inside a Linux container or VM (see README requirements)."@,
        },
{
    Err(TinoError::unsupported_host())
}

} // verus!
