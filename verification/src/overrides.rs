//! Environment-variable overrides for the boolean flags and the verbosity,
//! and the log records their resolution produces.

use vstd::prelude::*;

use crate::cli::Cli;
use crate::signals::{chars_eq_str, str_chars, trim, trim_span, upper_range, upper_seq};

verus! {

/// The decimal value of a digit character.
pub open spec fn digit_of(c: char) -> Option<int> {
    match c {
        '0' => Some(0int),
        '1' => Some(1int),
        '2' => Some(2int),
        '3' => Some(3int),
        '4' => Some(4int),
        '5' => Some(5int),
        '6' => Some(6int),
        '7' => Some(7int),
        '8' => Some(8int),
        '9' => Some(9int),
        _ => None,
    }
}

/// Whether every character of `s` is a decimal digit.
pub open spec fn all_digits(s: Seq<char>) -> bool {
    forall|k: int| 0 <= k < s.len() ==> digit_of(s[k]) is Some
}

/// The value of a digit string read left to right; non-digits count as 0.
pub open spec fn digits_value(s: Seq<char>) -> int
    decreases s.len(),
{
    if s.len() == 0 {
        0
    } else {
        digits_value(s.drop_last()) * 10 + (match digit_of(s[s.len() - 1]) {
            Some(d) => d,
            None => 0,
        })
    }
}

/// How an unsigned 8-bit integer is read from a string: an optional leading
/// `+`, then one or more digits, with a value of at most 255.
pub open spec fn parse_u8_of(s: Seq<char>) -> Option<u8> {
    let d = if s.len() > 0 && s[0] == '+' {
        s.drop_first()
    } else {
        s
    };
    if d.len() > 0 && all_digits(d) && digits_value(d) <= 255 {
        Some(digits_value(d) as u8)
    } else {
        None
    }
}

/// How a boolean override token is read: after trimming, `1` or a
/// case-insensitive `true`, `yes` or `on` enable; `0`, `false`, `no` or
/// `off` disable; anything else, the empty string included, is invalid.
pub open spec fn env_flag_of(s: Seq<char>) -> Option<bool> {
    let t = trim(s);
    if t.len() == 0 {
        None
    } else if t == "1"@ || upper_seq(t) == "TRUE"@ || upper_seq(t) == "YES"@ || upper_seq(t)
        == "ON"@ {
        Some(true)
    } else if t == "0"@ || upper_seq(t) == "FALSE"@ || upper_seq(t) == "NO"@ || upper_seq(t)
        == "OFF"@ {
        Some(false)
    } else {
        None
    }
}

/// The digit value of a character.
fn digit_value(c: char) -> (r: Option<u8>)
    ensures
        match r {
            Some(d) => digit_of(c) == Some(d as int),
            None => digit_of(c) is None,
        },
{
    match c {
        '0' => Some(0),
        '1' => Some(1),
        '2' => Some(2),
        '3' => Some(3),
        '4' => Some(4),
        '5' => Some(5),
        '6' => Some(6),
        '7' => Some(7),
        '8' => Some(8),
        '9' => Some(9),
        _ => None,
    }
}

/// The value of a digit string is never negative.
proof fn lemma_digits_value_nonneg(s: Seq<char>)
    ensures
        digits_value(s) >= 0,
    decreases s.len(),
{
    if s.len() > 0 {
        lemma_digits_value_nonneg(s.drop_last());
    }
}

/// A prefix of a digit string never has a larger value than the whole.
proof fn lemma_digits_prefix_le(s: Seq<char>, i: int)
    requires
        0 <= i <= s.len(),
    ensures
        digits_value(s.subrange(0, i)) <= digits_value(s),
    decreases s.len() - i,
{
    if i == s.len() {
        assert(s.subrange(0, i) =~= s);
    } else {
        assert(s.subrange(0, i + 1).drop_last() =~= s.subrange(0, i));
        lemma_digits_value_nonneg(s.subrange(0, i));
        assert(digits_value(s.subrange(0, i + 1)) >= digits_value(s.subrange(0, i)));
        lemma_digits_prefix_le(s, i + 1);
    }
}

/// Reads an unsigned 8-bit integer from `v[lo..hi]`.
fn parse_u8_range(v: &Vec<char>, lo: usize, hi: usize) -> (r: Option<u8>)
    requires
        lo <= hi <= v.len(),
    ensures
        r == parse_u8_of(v@.subrange(lo as int, hi as int)),
{
    let ghost s = v@.subrange(lo as int, hi as int);
    let start: usize = if lo < hi && v[lo] == '+' {
        lo + 1
    } else {
        lo
    };
    let ghost d = v@.subrange(start as int, hi as int);
    proof {
        if s.len() > 0 && s[0] == '+' {
            assert(s.drop_first() =~= d);
        } else {
            assert(s =~= d);
        }
    }
    if start == hi {
        return None;
    }
    let mut acc: u32 = 0;
    let mut k: usize = start;
    while k < hi
        invariant
            lo <= start <= k <= hi <= v.len(),
            s == v@.subrange(lo as int, hi as int),
            d == v@.subrange(start as int, hi as int),
            d == (if s.len() > 0 && s[0] == '+' {
                s.drop_first()
            } else {
                s
            }),
            d.len() > 0,
            all_digits(d.subrange(0, k - start)),
            acc == digits_value(d.subrange(0, k - start)),
            acc <= 255,
        decreases hi - k,
    {
        proof {
            assert(d[k - start] == v@[k as int]);
        }
        match digit_value(v[k]) {
            Some(dig) => {
                let ghost p1 = d.subrange(0, k - start);
                let ghost p2 = d.subrange(0, k + 1 - start);
                proof {
                    assert(p2.drop_last() =~= p1);
                    assert(p2[p2.len() - 1] == d[k - start]);
                    assert(digit_of(d[k - start]) == Some(dig as int));
                    assert(digits_value(p2) == digits_value(p1) * 10 + dig);
                    assert forall|j: int| 0 <= j < p2.len() implies digit_of(p2[j]) is Some by {
                        if j < k - start {
                            assert(p2[j] == p1[j]);
                        }
                    }
                }
                let next: u32 = acc * 10 + dig as u32;
                if next > 255 {
                    proof {
                        lemma_digits_prefix_le(d, k + 1 - start);
                        assert(digits_value(d) > 255);
                    }
                    return None;
                }
                acc = next;
            },
            None => {
                proof {
                    assert(digit_of(d[k - start]) is None);
                    assert(!all_digits(d));
                }
                return None;
            },
        }
        k += 1;
    }
    proof {
        assert(d.subrange(0, hi - start) =~= d);
        lemma_digits_value_nonneg(d);
    }
    Some(acc as u8)
}

/// Interprets a boolean environment-override token. An unrecognized token
/// is handed back unchanged as the error.
pub fn interpret_env_flag(raw: &str) -> (r: Result<bool, String>)
    ensures
        match r {
            Ok(b) => env_flag_of(raw@) == Some(b),
            Err(m) => env_flag_of(raw@) is None && m@ == raw@,
        },
{
    let chars = str_chars(raw);
    let (lo, hi) = trim_span(&chars);
    if lo == hi {
        return Err(String::from_str(raw));
    }
    let up = upper_range(&chars, lo, hi);
    let n = up.len();
    proof {
        assert(up@.subrange(0, n as int) =~= up@);
    }
    if chars_eq_str(&chars, lo, hi, "1") || chars_eq_str(&up, 0, n, "TRUE") || chars_eq_str(
        &up,
        0,
        n,
        "YES",
    ) || chars_eq_str(&up, 0, n, "ON") {
        return Ok(true);
    }
    if chars_eq_str(&chars, lo, hi, "0") || chars_eq_str(&up, 0, n, "FALSE") || chars_eq_str(
        &up,
        0,
        n,
        "NO",
    ) || chars_eq_str(&up, 0, n, "OFF") {
        return Ok(false);
    }
    Err(String::from_str(raw))
}

/// What the resolution of the environment overrides decided, kept so the
/// messages can be written out once logging is up.
#[derive(Debug)]
pub struct EnvOverrideLog {
    /// Value the subreaper flag was overridden to, if it was.
    pub subreaper_env: Option<bool>,
    /// Value the process-group-kill flag was overridden to, if it was.
    pub pgroup_env: Option<bool>,
    /// Verbosity level sourced from the environment, if any.
    pub verbosity_env: Option<u8>,
    /// Invalid boolean overrides: the variable's name and the value found.
    pub invalid_flags: Vec<(String, String)>,
    /// Invalid verbosity override: the value found and why it was refused.
    pub verbosity_error: Option<(String, String)>,
}

impl Default for EnvOverrideLog {
    /// An empty log: nothing was overridden, nothing was invalid.
    fn default() -> (r: Self)
        ensures
            r.subreaper_env is None,
            r.pgroup_env is None,
            r.verbosity_env is None,
            r.invalid_flags@.len() == 0,
            r.verbosity_error is None,
    {
        EnvOverrideLog {
            subreaper_env: None,
            pgroup_env: None,
            verbosity_env: None,
            invalid_flags: Vec::new(),
            verbosity_error: None,
        }
    }
}

/// One record the override resolution wants logged.
#[derive(Debug, PartialEq, Eq)]
pub enum LogEvent {
    /// A boolean override set the subreaper flag; logged at debug.
    SubreaperOverride { enabled: bool },
    /// A boolean override set the process-group-kill flag; logged at debug.
    PgroupOverride { enabled: bool },
    /// The verbosity was sourced from the environment; logged at debug.
    VerbosityOverride { level: u8 },
    /// A boolean override held an unrecognized token; logged at warn.
    InvalidFlag { env: String, value: String },
    /// The verbosity override was not a valid level; logged at warn.
    InvalidVerbosity { value: String, reason: String },
}

/// The records a log emits, in order: the three successful overrides,
/// then the invalid boolean overrides, then an invalid verbosity.
pub open spec fn spec_emit(log: EnvOverrideLog) -> Seq<LogEvent> {
    let s1 = match log.subreaper_env {
        Some(b) => seq![LogEvent::SubreaperOverride { enabled: b }],
        None => Seq::<LogEvent>::empty(),
    };
    let s2 = match log.pgroup_env {
        Some(b) => seq![LogEvent::PgroupOverride { enabled: b }],
        None => Seq::<LogEvent>::empty(),
    };
    let s3 = match log.verbosity_env {
        Some(v) => seq![LogEvent::VerbosityOverride { level: v }],
        None => Seq::<LogEvent>::empty(),
    };
    let s4 = log.invalid_flags@.map_values(
        |p: (String, String)| LogEvent::InvalidFlag { env: p.0, value: p.1 },
    );
    let s5 = match log.verbosity_error {
        Some(p) => seq![LogEvent::InvalidVerbosity { value: p.0, reason: p.1 }],
        None => Seq::<LogEvent>::empty(),
    };
    s1 + s2 + s3 + s4 + s5
}

impl EnvOverrideLog {
    /// The records to log, in the order they are to appear.
    pub fn emit(&self) -> (events: Vec<LogEvent>)
        ensures
            events@ == spec_emit(*self),
    {
        let mut events: Vec<LogEvent> = Vec::new();
        match self.subreaper_env {
            Some(b) => events.push(LogEvent::SubreaperOverride { enabled: b }),
            None => {},
        }
        match self.pgroup_env {
            Some(b) => events.push(LogEvent::PgroupOverride { enabled: b }),
            None => {},
        }
        match self.verbosity_env {
            Some(v) => events.push(LogEvent::VerbosityOverride { level: v }),
            None => {},
        }
        let ghost head = events@;
        let ghost flag_events = self.invalid_flags@.map_values(
            |p: (String, String)| LogEvent::InvalidFlag { env: p.0, value: p.1 },
        );
        let n = self.invalid_flags.len();
        let mut i: usize = 0;
        while i < n
            invariant
                i <= n,
                n == self.invalid_flags@.len(),
                flag_events == self.invalid_flags@.map_values(
                    |p: (String, String)| LogEvent::InvalidFlag { env: p.0, value: p.1 },
                ),
                events@ == head + flag_events.subrange(0, i as int),
            decreases n - i,
        {
            let env = self.invalid_flags[i].0.clone();
            let value = self.invalid_flags[i].1.clone();
            events.push(LogEvent::InvalidFlag { env, value });
            proof {
                assert(events@ =~= head + flag_events.subrange(0, i + 1));
            }
            i += 1;
        }
        proof {
            assert(flag_events.subrange(0, n as int) =~= flag_events);
        }
        match &self.verbosity_error {
            Some(p) => {
                let value = p.0.clone();
                let reason = p.1.clone();
                events.push(LogEvent::InvalidVerbosity { value, reason });
            },
            None => {},
        }
        proof {
            assert(events@ =~= spec_emit(*self));
        }
        events
    }
}

/// Applying the environment overrides a second time changes nothing: the
/// raw override values stay in the configuration, resolve the same way, and
/// set the flags to the values they already have.
pub proof fn lemma_env_overrides_idempotent(c: Cli)
    ensures
        spec_apply_env(spec_apply_env(c)) == spec_apply_env(c),
{
}

/// The verbosity level an override token supplies: an integer read as an
/// unsigned 8-bit value and no greater than 3. Anything else — a
/// non-numeric token or a value out of range — is invalid.
pub open spec fn verbosity_of(s: Seq<char>) -> Option<u8> {
    match parse_u8_of(trim(s)) {
        Some(v) => if v <= 3 {
            Some(v)
        } else {
            None
        },
        None => None,
    }
}

/// The configuration after the environment overrides: valid boolean
/// overrides replace the flags; the verbosity override applies only when no
/// verbosity flag was given and only for integers 0 through 3; invalid or
/// out-of-range values leave the prior value untouched.
pub open spec fn spec_apply_env(c: Cli) -> Cli {
    let sub = match c.subreaper_env {
        Some(raw) => match env_flag_of(raw@) {
            Some(b) => b,
            None => c.subreaper,
        },
        None => c.subreaper,
    };
    let pg = match c.pgroup_env {
        Some(raw) => match env_flag_of(raw@) {
            Some(b) => b,
            None => c.pgroup_kill,
        },
        None => c.pgroup_kill,
    };
    let verb = if c.verbosity == 0 {
        match c.verbosity_env {
            Some(raw) => match verbosity_of(raw@) {
                Some(v) => v,
                None => 0u8,
            },
            None => 0u8,
        }
    } else {
        c.verbosity
    };
    Cli { subreaper: sub, pgroup_kill: pg, verbosity: verb, ..c }
}

/// What the log of resolving the overrides of configuration `c` holds:
/// each successful override's value, each invalid boolean override under
/// its variable's name with the value found, in order, and an invalid
/// verbosity override with the value found.
pub open spec fn env_log_matches(c: Cli, log: EnvOverrideLog) -> bool {
    let sub_bad = c.subreaper_env is Some && env_flag_of(c.subreaper_env->0@) is None;
    let pg_bad = c.pgroup_env is Some && env_flag_of(c.pgroup_env->0@) is None;
    let verr = c.verbosity == 0 && c.verbosity_env is Some && verbosity_of(
        c.verbosity_env->0@,
    ) is None;
    &&& log.subreaper_env == (match c.subreaper_env {
        Some(raw) => env_flag_of(raw@),
        None => None::<bool>,
    })
    &&& log.pgroup_env == (match c.pgroup_env {
        Some(raw) => env_flag_of(raw@),
        None => None::<bool>,
    })
    &&& log.verbosity_env == (if c.verbosity == 0 {
        match c.verbosity_env {
            Some(raw) => verbosity_of(raw@),
            None => None::<u8>,
        }
    } else {
        None::<u8>
    })
    &&& log.invalid_flags@.len() == (if sub_bad {
        1int
    } else {
        0int
    }) + (if pg_bad {
        1int
    } else {
        0int
    })
    &&& (sub_bad ==> log.invalid_flags@[0].0@ == "TINI_SUBREAPER"@ && log.invalid_flags@[0].1@
        == c.subreaper_env->0@)
    &&& (pg_bad ==> log.invalid_flags@[if sub_bad {
        1int
    } else {
        0int
    }].0@ == "TINI_KILL_PROCESS_GROUP"@ && log.invalid_flags@[if sub_bad {
        1int
    } else {
        0int
    }].1@ == c.pgroup_env->0@)
    &&& (verr ==> {
        let pair = log.verbosity_error->0;
        log.verbosity_error is Some && pair.0@ == c.verbosity_env->0@ && pair.1@
            == "not an integer in the range 0..=3"@
    })
    &&& (!verr ==> log.verbosity_error is None)
}

/// Resolves the environment overrides into the configuration and reports
/// what was decided.
pub fn apply_env_overrides(cli: &mut Cli) -> (log: EnvOverrideLog)
    ensures
        *final(cli) == spec_apply_env(*old(cli)),
        env_log_matches(*old(cli), log),
{
    let mut log = EnvOverrideLog {
        subreaper_env: None,
        pgroup_env: None,
        verbosity_env: None,
        invalid_flags: Vec::new(),
        verbosity_error: None,
    };
    match &cli.subreaper_env {
        Some(raw) => match interpret_env_flag(raw.as_str()) {
            Ok(b) => {
                cli.subreaper = b;
                log.subreaper_env = Some(b);
            },
            Err(m) => {
                log.invalid_flags.push((String::from_str("TINI_SUBREAPER"), m));
            },
        },
        None => {},
    }
    match &cli.pgroup_env {
        Some(raw) => match interpret_env_flag(raw.as_str()) {
            Ok(b) => {
                cli.pgroup_kill = b;
                log.pgroup_env = Some(b);
            },
            Err(m) => {
                log.invalid_flags.push((String::from_str("TINI_KILL_PROCESS_GROUP"), m));
            },
        },
        None => {},
    }
    if cli.verbosity == 0 {
        let outcome: Option<Option<u8>> = match &cli.verbosity_env {
            Some(raw) => {
                let chars = str_chars(raw.as_str());
                let (lo, hi) = trim_span(&chars);
                Some(parse_u8_range(&chars, lo, hi))
            },
            None => None,
        };
        let level: Option<u8> = match outcome {
            Some(Some(v)) => if v <= 3 {
                Some(v)
            } else {
                None
            },
            Some(None) => None,
            None => None,
        };
        match outcome {
            Some(_) => match level {
                Some(v) => {
                    cli.verbosity = v;
                    log.verbosity_env = Some(v);
                },
                None => {
                    let value = match &cli.verbosity_env {
                        Some(raw) => raw.clone(),
                        None => String::new(),
                    };
                    log.verbosity_error = Some(
                        (value, String::from_str("not an integer in the range 0..=3")),
                    );
                },
            },
            None => {},
        }
    }
    log
}

} // verus!
