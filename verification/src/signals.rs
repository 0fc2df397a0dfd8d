//! The signal catalog: the recognized signal tokens, their numeric values,
//! the forwarded subset, and name canonicalization.
//!
//! A signal name is a short uppercase token such as `TERM` or `USR1`. The
//! canonical form strips a leading `SIG` prefix, trims surrounding
//! whitespace, and upper-cases ASCII letters. Signal numbers follow the
//! usual Linux numbering.

use vstd::prelude::*;

verus! {

/// Signal number of `SIGHUP`.
pub const SIGHUP: i32 = 1;

/// Signal number of `SIGINT`.
pub const SIGINT: i32 = 2;

/// Signal number of `SIGQUIT`.
pub const SIGQUIT: i32 = 3;

/// Signal number of `SIGKILL`, the forced-kill signal.
pub const SIGKILL: i32 = 9;

/// Signal number of `SIGUSR1`.
pub const SIGUSR1: i32 = 10;

/// Signal number of `SIGUSR2`.
pub const SIGUSR2: i32 = 12;

/// Signal number of `SIGTERM`.
pub const SIGTERM: i32 = 15;

/// Signal number of `SIGCHLD`, the child-termination notification.
pub const SIGCHLD: i32 = 17;

/// Signal number of `SIGCONT`.
pub const SIGCONT: i32 = 18;

/// Signal number of `SIGTTIN`.
pub const SIGTTIN: i32 = 21;

/// Signal number of `SIGTTOU`.
pub const SIGTTOU: i32 = 22;

/// Signal number of `SIGWINCH`.
pub const SIGWINCH: i32 = 28;

/// The canonical token of catalog entry `i`.
pub open spec fn signal_name_at(i: int) -> Seq<char> {
    if i == 0 {
        "HUP"@
    } else if i == 1 {
        "INT"@
    } else if i == 2 {
        "QUIT"@
    } else if i == 3 {
        "ILL"@
    } else if i == 4 {
        "TRAP"@
    } else if i == 5 {
        "ABRT"@
    } else if i == 6 {
        "BUS"@
    } else if i == 7 {
        "FPE"@
    } else if i == 8 {
        "KILL"@
    } else if i == 9 {
        "USR1"@
    } else if i == 10 {
        "SEGV"@
    } else if i == 11 {
        "USR2"@
    } else if i == 12 {
        "PIPE"@
    } else if i == 13 {
        "ALRM"@
    } else if i == 14 {
        "TERM"@
    } else if i == 15 {
        "CONT"@
    } else if i == 16 {
        "WINCH"@
    } else if i == 17 {
        "TTIN"@
    } else {
        "TTOU"@
    }
}

/// The `SIG`-prefixed form of catalog entry `i`.
pub open spec fn signal_prefixed_at(i: int) -> Seq<char> {
    if i == 0 {
        "SIGHUP"@
    } else if i == 1 {
        "SIGINT"@
    } else if i == 2 {
        "SIGQUIT"@
    } else if i == 3 {
        "SIGILL"@
    } else if i == 4 {
        "SIGTRAP"@
    } else if i == 5 {
        "SIGABRT"@
    } else if i == 6 {
        "SIGBUS"@
    } else if i == 7 {
        "SIGFPE"@
    } else if i == 8 {
        "SIGKILL"@
    } else if i == 9 {
        "SIGUSR1"@
    } else if i == 10 {
        "SIGSEGV"@
    } else if i == 11 {
        "SIGUSR2"@
    } else if i == 12 {
        "SIGPIPE"@
    } else if i == 13 {
        "SIGALRM"@
    } else if i == 14 {
        "SIGTERM"@
    } else if i == 15 {
        "SIGCONT"@
    } else if i == 16 {
        "SIGWINCH"@
    } else if i == 17 {
        "SIGTTIN"@
    } else {
        "SIGTTOU"@
    }
}

/// The signal number of catalog entry `i`.
pub open spec fn signal_value_at(i: int) -> i32 {
    if i == 0 {
        1i32
    } else if i == 1 {
        2i32
    } else if i == 2 {
        3i32
    } else if i == 3 {
        4i32
    } else if i == 4 {
        5i32
    } else if i == 5 {
        6i32
    } else if i == 6 {
        7i32
    } else if i == 7 {
        8i32
    } else if i == 8 {
        9i32
    } else if i == 9 {
        10i32
    } else if i == 10 {
        11i32
    } else if i == 11 {
        12i32
    } else if i == 12 {
        13i32
    } else if i == 13 {
        14i32
    } else if i == 14 {
        15i32
    } else if i == 15 {
        18i32
    } else if i == 16 {
        28i32
    } else if i == 17 {
        21i32
    } else {
        22i32
    }
}

/// The canonical token of catalog entry `i`, as a string slice.
pub fn signal_name(i: usize) -> (r: &'static str)
    requires
        i < 19,
    ensures
        r@ == signal_name_at(i as int),
{
    if i == 0 {
        "HUP"
    } else if i == 1 {
        "INT"
    } else if i == 2 {
        "QUIT"
    } else if i == 3 {
        "ILL"
    } else if i == 4 {
        "TRAP"
    } else if i == 5 {
        "ABRT"
    } else if i == 6 {
        "BUS"
    } else if i == 7 {
        "FPE"
    } else if i == 8 {
        "KILL"
    } else if i == 9 {
        "USR1"
    } else if i == 10 {
        "SEGV"
    } else if i == 11 {
        "USR2"
    } else if i == 12 {
        "PIPE"
    } else if i == 13 {
        "ALRM"
    } else if i == 14 {
        "TERM"
    } else if i == 15 {
        "CONT"
    } else if i == 16 {
        "WINCH"
    } else if i == 17 {
        "TTIN"
    } else {
        "TTOU"
    }
}

/// The `SIG`-prefixed form of catalog entry `i`, as a string slice.
pub fn signal_prefixed_name(i: usize) -> (r: &'static str)
    requires
        i < 19,
    ensures
        r@ == signal_prefixed_at(i as int),
{
    if i == 0 {
        "SIGHUP"
    } else if i == 1 {
        "SIGINT"
    } else if i == 2 {
        "SIGQUIT"
    } else if i == 3 {
        "SIGILL"
    } else if i == 4 {
        "SIGTRAP"
    } else if i == 5 {
        "SIGABRT"
    } else if i == 6 {
        "SIGBUS"
    } else if i == 7 {
        "SIGFPE"
    } else if i == 8 {
        "SIGKILL"
    } else if i == 9 {
        "SIGUSR1"
    } else if i == 10 {
        "SIGSEGV"
    } else if i == 11 {
        "SIGUSR2"
    } else if i == 12 {
        "SIGPIPE"
    } else if i == 13 {
        "SIGALRM"
    } else if i == 14 {
        "SIGTERM"
    } else if i == 15 {
        "SIGCONT"
    } else if i == 16 {
        "SIGWINCH"
    } else if i == 17 {
        "SIGTTIN"
    } else {
        "SIGTTOU"
    }
}

/// The signal number of catalog entry `i`.
pub fn signal_value(i: usize) -> (r: i32)
    requires
        i < 19,
    ensures
        r == signal_value_at(i as int),
{
    if i == 0 {
        1
    } else if i == 1 {
        2
    } else if i == 2 {
        3
    } else if i == 3 {
        4
    } else if i == 4 {
        5
    } else if i == 5 {
        6
    } else if i == 6 {
        7
    } else if i == 7 {
        8
    } else if i == 8 {
        9
    } else if i == 9 {
        10
    } else if i == 10 {
        11
    } else if i == 11 {
        12
    } else if i == 12 {
        13
    } else if i == 13 {
        14
    } else if i == 14 {
        15
    } else if i == 15 {
        18
    } else if i == 16 {
        28
    } else if i == 17 {
        21
    } else {
        22
    }
}

/// Whether `s` is one of the catalog's canonical tokens.
pub open spec fn is_catalog_name(s: Seq<char>) -> bool {
    exists|i: int| 0 <= i < 19 && s == signal_name_at(i)
}

/// Whitespace, as stripped from the ends of a signal name and of
/// environment-override tokens: the characters with the Unicode
/// White_Space property, the set `char::is_whitespace` accepts.
pub open spec fn is_space_char(c: char) -> bool {
    c == ' ' || c == '\t' || c == '\n' || c == '\u{b}' || c == '\u{c}' || c == '\r'
        || c == '\u{85}' || c == '\u{a0}' || c == '\u{1680}' || (8192 <= c as u32 && c as u32
        <= 8202) || c == '\u{2028}' || c == '\u{2029}' || c == '\u{202f}' || c == '\u{205f}'
        || c == '\u{3000}'
}

/// Upper-cases an ASCII letter; leaves any other character unchanged.
pub open spec fn upper_char(c: char) -> char {
    match c {
        'a' => 'A',
        'b' => 'B',
        'c' => 'C',
        'd' => 'D',
        'e' => 'E',
        'f' => 'F',
        'g' => 'G',
        'h' => 'H',
        'i' => 'I',
        'j' => 'J',
        'k' => 'K',
        'l' => 'L',
        'm' => 'M',
        'n' => 'N',
        'o' => 'O',
        'p' => 'P',
        'q' => 'Q',
        'r' => 'R',
        's' => 'S',
        't' => 'T',
        'u' => 'U',
        'v' => 'V',
        'w' => 'W',
        'x' => 'X',
        'y' => 'Y',
        'z' => 'Z',
        _ => c,
    }
}

/// Drops leading whitespace.
pub open spec fn trim_start(s: Seq<char>) -> Seq<char>
    decreases s.len(),
{
    if s.len() > 0 && is_space_char(s[0]) {
        trim_start(s.drop_first())
    } else {
        s
    }
}

/// Drops trailing whitespace.
pub open spec fn trim_end(s: Seq<char>) -> Seq<char>
    decreases s.len(),
{
    if s.len() > 0 && is_space_char(s[s.len() - 1]) {
        trim_end(s.drop_last())
    } else {
        s
    }
}

/// Drops whitespace from both ends.
pub open spec fn trim(s: Seq<char>) -> Seq<char> {
    trim_end(trim_start(s))
}

/// Upper-cases every ASCII letter.
pub open spec fn upper_seq(s: Seq<char>) -> Seq<char> {
    s.map_values(|c: char| upper_char(c))
}

/// Drops a leading `SIG`, if present.
pub open spec fn strip_sig(s: Seq<char>) -> Seq<char> {
    if s.len() >= 3 && s[0] == 'S' && s[1] == 'I' && s[2] == 'G' {
        s.subrange(3, s.len() as int)
    } else {
        s
    }
}

/// The canonical token for a raw signal name: trimmed, upper-cased, with a
/// leading `SIG` removed; defined only when the result is a catalog token.
pub open spec fn canonical_of(s: Seq<char>) -> Option<Seq<char>> {
    let t = trim(s);
    if t.len() == 0 {
        None
    } else {
        let c = strip_sig(upper_seq(t));
        if is_catalog_name(c) {
            Some(c)
        } else {
            None
        }
    }
}

/// The signal number of a canonical token, searching the catalog from
/// entry `i` on.
pub open spec fn lookup_value(s: Seq<char>, i: int) -> Option<i32>
    decreases 19 - i,
{
    if i < 0 || i >= 19 {
        None
    } else if s == signal_name_at(i) {
        Some(signal_value_at(i))
    } else {
        lookup_value(s, i + 1)
    }
}

/// The signal number a raw name resolves to, if it is recognized.
pub open spec fn signal_of(s: Seq<char>) -> Option<i32> {
    match canonical_of(s) {
        Some(c) => lookup_value(c, 0),
        None => None,
    }
}

/// The forwarded subset: hang-up, interrupt, quit, terminate, user1, user2,
/// window-size-change, continue, tty-input-stopped, tty-output-stopped.
pub open spec fn is_forwarded_signal(sig: i32) -> bool {
    sig == SIGHUP || sig == SIGINT || sig == SIGQUIT || sig == SIGTERM || sig == SIGUSR1
        || sig == SIGUSR2 || sig == SIGWINCH || sig == SIGCONT || sig == SIGTTIN || sig == SIGTTOU
}

/// A termination intent: terminate, interrupt, or quit.
pub open spec fn is_termination_intent(sig: i32) -> bool {
    sig == SIGTERM || sig == SIGINT || sig == SIGQUIT
}

/// Whether a forwarded signal expresses the intent to stop the child.
pub fn is_termination_signal(sig: i32) -> (r: bool)
    ensures
        r == is_termination_intent(sig),
{
    sig == SIGTERM || sig == SIGINT || sig == SIGQUIT
}

/// The forwarded signals, in catalog order.
pub fn forwarded_signals() -> (v: Vec<i32>)
    ensures
        v@ == seq![SIGHUP, SIGINT, SIGQUIT, SIGTERM, SIGUSR1, SIGUSR2, SIGWINCH, SIGCONT, SIGTTIN, SIGTTOU],
        forall|sig: i32| is_forwarded_signal(sig) <==> v@.contains(sig),
{
    let v: Vec<i32> = vec![1, 2, 3, 15, 10, 12, 28, 18, 21, 22];
    proof {
        assert(v@ =~= seq![SIGHUP, SIGINT, SIGQUIT, SIGTERM, SIGUSR1, SIGUSR2, SIGWINCH, SIGCONT, SIGTTIN, SIGTTOU]);
        assert forall|sig: i32| is_forwarded_signal(sig) implies v@.contains(sig) by {
            if sig == SIGHUP {
                assert(v@[0] == sig);
            } else if sig == SIGINT {
                assert(v@[1] == sig);
            } else if sig == SIGQUIT {
                assert(v@[2] == sig);
            } else if sig == SIGTERM {
                assert(v@[3] == sig);
            } else if sig == SIGUSR1 {
                assert(v@[4] == sig);
            } else if sig == SIGUSR2 {
                assert(v@[5] == sig);
            } else if sig == SIGWINCH {
                assert(v@[6] == sig);
            } else if sig == SIGCONT {
                assert(v@[7] == sig);
            } else {
                assert(v@[8] == sig || v@[9] == sig);
            }
        }
    }
    v
}

/// The trap set: the forwarded signals plus the child-termination signal.
pub fn trap_signals() -> (v: Vec<i32>)
    ensures
        v@ == seq![SIGHUP, SIGINT, SIGQUIT, SIGTERM, SIGUSR1, SIGUSR2, SIGWINCH, SIGCONT, SIGTTIN, SIGTTOU, SIGCHLD],
        forall|sig: i32| (is_forwarded_signal(sig) || sig == SIGCHLD) <==> v@.contains(sig),
{
    let v: Vec<i32> = vec![1, 2, 3, 15, 10, 12, 28, 18, 21, 22, 17];
    proof {
        assert(v@ =~= seq![SIGHUP, SIGINT, SIGQUIT, SIGTERM, SIGUSR1, SIGUSR2, SIGWINCH, SIGCONT, SIGTTIN, SIGTTOU, SIGCHLD]);
        assert forall|sig: i32| is_forwarded_signal(sig) || sig == SIGCHLD implies v@.contains(sig) by {
            if sig == SIGHUP {
                assert(v@[0] == sig);
            } else if sig == SIGINT {
                assert(v@[1] == sig);
            } else if sig == SIGQUIT {
                assert(v@[2] == sig);
            } else if sig == SIGTERM {
                assert(v@[3] == sig);
            } else if sig == SIGUSR1 {
                assert(v@[4] == sig);
            } else if sig == SIGUSR2 {
                assert(v@[5] == sig);
            } else if sig == SIGWINCH {
                assert(v@[6] == sig);
            } else if sig == SIGCONT {
                assert(v@[7] == sig);
            } else if sig == SIGTTIN || sig == SIGTTOU {
                assert(v@[8] == sig || v@[9] == sig);
            } else {
                assert(v@[10] == sig);
            }
        }
    }
    v
}

/// Collects the characters of a string slice.
pub(crate) fn str_chars(s: &str) -> (v: Vec<char>)
    ensures
        v@ == s@,
{
    let n = s.unicode_len();
    let mut v: Vec<char> = Vec::new();
    let mut i: usize = 0;
    while i < n
        invariant
            n == s@.len(),
            i <= n,
            v@ == s@.subrange(0, i as int),
        decreases n - i,
    {
        v.push(s.get_char(i));
        proof {
            assert(v@ =~= s@.subrange(0, i + 1));
        }
        i += 1;
    }
    proof {
        assert(v@ =~= s@);
    }
    v
}

/// Whitespace test, matching `is_space_char`.
pub(crate) fn is_space(c: char) -> (r: bool)
    ensures
        r == is_space_char(c),
{
    let u = c as u32;
    u == 32 || u == 9 || u == 10 || u == 11 || u == 12 || u == 13 || u == 133 || u == 160
        || u == 5760 || (8192 <= u && u <= 8202) || u == 8232 || u == 8233 || u == 8239
        || u == 8287 || u == 12288
}

/// Upper-cases an ASCII letter.
pub(crate) fn to_upper(c: char) -> (r: char)
    ensures
        r == upper_char(c),
{
    match c {
        'a' => 'A',
        'b' => 'B',
        'c' => 'C',
        'd' => 'D',
        'e' => 'E',
        'f' => 'F',
        'g' => 'G',
        'h' => 'H',
        'i' => 'I',
        'j' => 'J',
        'k' => 'K',
        'l' => 'L',
        'm' => 'M',
        'n' => 'N',
        'o' => 'O',
        'p' => 'P',
        'q' => 'Q',
        'r' => 'R',
        's' => 'S',
        't' => 'T',
        'u' => 'U',
        'v' => 'V',
        'w' => 'W',
        'x' => 'X',
        'y' => 'Y',
        'z' => 'Z',
        _ => c,
    }
}

/// Dropping `lo` leading whitespace characters computes `trim_start`.
proof fn lemma_trim_start_at(s: Seq<char>, lo: int)
    requires
        0 <= lo <= s.len(),
        forall|k: int| 0 <= k < lo ==> is_space_char(s[k]),
        lo == s.len() || !is_space_char(s[lo]),
    ensures
        trim_start(s) == s.subrange(lo, s.len() as int),
    decreases lo,
{
    if lo == 0 {
        assert(s.subrange(0, s.len() as int) =~= s);
    } else {
        let d = s.drop_first();
        assert(d =~= s.subrange(1, s.len() as int));
        lemma_trim_start_at(d, lo - 1);
        assert(d.subrange(lo - 1, d.len() as int) =~= s.subrange(lo, s.len() as int));
    }
}

/// Dropping trailing whitespace from index `hi` on computes `trim_end`.
proof fn lemma_trim_end_at(s: Seq<char>, hi: int)
    requires
        0 <= hi <= s.len(),
        forall|k: int| hi <= k < s.len() ==> is_space_char(s[k]),
        hi == 0 || !is_space_char(s[hi - 1]),
    ensures
        trim_end(s) == s.subrange(0, hi),
    decreases s.len() - hi,
{
    if hi == s.len() {
        if s.len() > 0 && is_space_char(s[s.len() - 1]) {
            assert(false);
        }
        assert(s.subrange(0, s.len() as int) =~= s);
    } else {
        let d = s.drop_last();
        assert(d =~= s.subrange(0, s.len() - 1));
        lemma_trim_end_at(d, hi);
        assert(d.subrange(0, hi) =~= s.subrange(0, hi));
    }
}

/// The trimmed span of `v`: the least `lo` and greatest `hi` such that
/// everything outside `lo..hi` is whitespace, so that
/// `trim(v@) == v@.subrange(lo, hi)`.
pub(crate) fn trim_span(v: &Vec<char>) -> (r: (usize, usize))
    ensures
        r.0 <= r.1 <= v.len(),
        trim(v@) == v@.subrange(r.0 as int, r.1 as int),
{
    let n = v.len();
    let mut lo: usize = 0;
    while lo < n && is_space(v[lo])
        invariant
            lo <= n,
            n == v.len(),
            forall|k: int| 0 <= k < lo ==> is_space_char(v@[k]),
        decreases n - lo,
    {
        lo += 1;
    }
    let mut hi: usize = n;
    while hi > lo && is_space(v[hi - 1])
        invariant
            lo <= hi <= n,
            n == v.len(),
            forall|k: int| 0 <= k < lo ==> is_space_char(v@[k]),
            forall|k: int| hi <= k < n ==> is_space_char(v@[k]),
        decreases hi,
    {
        hi -= 1;
    }
    proof {
        lemma_trim_start_at(v@, lo as int);
        let t = v@.subrange(lo as int, n as int);
        if hi == lo {
            lemma_trim_end_at(t, 0);
        } else {
            lemma_trim_end_at(t, hi - lo);
        }
        assert(t.subrange(0, hi - lo) =~= v@.subrange(lo as int, hi as int));
    }
    (lo, hi)
}

/// Whether `v[lo..hi]` equals the characters of `s`.
pub(crate) fn chars_eq_str(v: &Vec<char>, lo: usize, hi: usize, s: &str) -> (r: bool)
    requires
        lo <= hi <= v.len(),
    ensures
        r == (v@.subrange(lo as int, hi as int) == s@),
{
    let n = s.unicode_len();
    if hi - lo != n {
        proof {
            assert(v@.subrange(lo as int, hi as int).len() != s@.len());
        }
        return false;
    }
    let mut i: usize = 0;
    while i < n
        invariant
            lo <= hi <= v.len(),
            i <= n,
            n == s@.len(),
            hi - lo == n,
            forall|k: int| 0 <= k < i ==> v@.subrange(lo as int, hi as int)[k] == s@[k],
        decreases n - i,
    {
        if v[lo + i] != s.get_char(i) {
            proof {
                assert(v@.subrange(lo as int, hi as int)[i as int] != s@[i as int]);
            }
            return false;
        }
        i += 1;
    }
    proof {
        assert(v@.subrange(lo as int, hi as int) =~= s@);
    }
    true
}

/// Upper-cases the characters of `v[lo..hi]`.
pub(crate) fn upper_range(v: &Vec<char>, lo: usize, hi: usize) -> (up: Vec<char>)
    requires
        lo <= hi <= v.len(),
    ensures
        up@ == upper_seq(v@.subrange(lo as int, hi as int)),
{
    let ghost t = v@.subrange(lo as int, hi as int);
    let mut up: Vec<char> = Vec::new();
    let mut k: usize = lo;
    while k < hi
        invariant
            lo <= k <= hi <= v.len(),
            t == v@.subrange(lo as int, hi as int),
            up@ == upper_seq(t).subrange(0, k - lo),
        decreases hi - k,
    {
        up.push(to_upper(v[k]));
        proof {
            assert(up@ =~= upper_seq(t).subrange(0, k + 1 - lo));
        }
        k += 1;
    }
    proof {
        assert(up@ =~= upper_seq(t));
    }
    up
}

/// Whether a raw name is nothing but whitespace.
pub fn trimmed_is_empty(raw: &str) -> (r: bool)
    ensures
        r == (trim(raw@).len() == 0),
{
    let chars = str_chars(raw);
    let (lo, hi) = trim_span(&chars);
    lo == hi
}

/// Resolves a raw signal name to its catalog index.
pub fn canonical_signal_index(raw: &str) -> (r: Option<usize>)
    ensures
        match r {
            Some(i) => i < 19 && canonical_of(raw@) == Some(signal_name_at(i as int)),
            None => canonical_of(raw@) is None,
        },
{
    let chars = str_chars(raw);
    let (lo, hi) = trim_span(&chars);
    if lo == hi {
        proof {
            assert(trim(raw@).len() == 0);
        }
        return None;
    }
    let ghost t = trim(raw@);
    let mut up: Vec<char> = Vec::new();
    let mut k: usize = lo;
    while k < hi
        invariant
            lo <= k <= hi <= chars.len(),
            t == chars@.subrange(lo as int, hi as int),
            up@ == upper_seq(t).subrange(0, k - lo),
        decreases hi - k,
    {
        up.push(to_upper(chars[k]));
        proof {
            assert(up@ =~= upper_seq(t).subrange(0, k + 1 - lo));
        }
        k += 1;
    }
    proof {
        assert(up@ =~= upper_seq(t));
    }
    let ulen = up.len();
    let start: usize = if ulen >= 3 && up[0] == 'S' && up[1] == 'I' && up[2] == 'G' {
        3
    } else {
        0
    };
    let ghost cand = strip_sig(upper_seq(t));
    proof {
        assert(up@.subrange(start as int, ulen as int) =~= cand);
    }
    let mut i: usize = 0;
    while i < 19
        invariant
            i <= 19,
            start <= ulen <= up.len(),
            cand == up@.subrange(start as int, ulen as int),
            cand == strip_sig(upper_seq(trim(raw@))),
            trim(raw@).len() > 0,
            forall|j: int| 0 <= j < i ==> cand != signal_name_at(j),
        decreases 19 - i,
    {
        if chars_eq_str(&up, start, ulen, signal_name(i)) {
            return Some(i);
        }
        i += 1;
    }
    proof {
        assert(!is_catalog_name(cand));
    }
    None
}

/// A string that is already a canonical token comes through
/// canonicalization unchanged.
proof fn lemma_name_fixed_point(n: Seq<char>)
    requires
        n.len() > 0,
        !is_space_char(n[0]),
        !is_space_char(n[n.len() - 1]),
        forall|k: int| 0 <= k < n.len() ==> upper_char(n[k]) == n[k],
        !(n.len() >= 3 && n[0] == 'S' && n[1] == 'I' && n[2] == 'G'),
        is_catalog_name(n),
    ensures
        canonical_of(n) == Some(n),
{
    assert(trim_start(n) == n);
    assert(trim_end(n) == n);
    assert(upper_seq(n) =~= n);
}

/// Every catalog token is a fixed point of canonicalization.
proof fn lemma_catalog_name_fixed(i: int)
    requires
        0 <= i < 19,
    ensures
        canonical_of(signal_name_at(i)) == Some(signal_name_at(i)),
{
    reveal_strlit("HUP");
    reveal_strlit("INT");
    reveal_strlit("QUIT");
    reveal_strlit("ILL");
    reveal_strlit("TRAP");
    reveal_strlit("ABRT");
    reveal_strlit("BUS");
    reveal_strlit("FPE");
    reveal_strlit("KILL");
    reveal_strlit("USR1");
    reveal_strlit("SEGV");
    reveal_strlit("USR2");
    reveal_strlit("PIPE");
    reveal_strlit("ALRM");
    reveal_strlit("TERM");
    reveal_strlit("CONT");
    reveal_strlit("WINCH");
    reveal_strlit("TTIN");
    reveal_strlit("TTOU");
    let n = signal_name_at(i);
    assert(is_catalog_name(n));
    lemma_name_fixed_point(n);
}

/// Every prefixed form in the catalog is `SIG` followed by the canonical
/// token of the same entry.
pub proof fn lemma_prefixed_form(i: int)
    requires
        0 <= i < 19,
    ensures
        signal_prefixed_at(i) == "SIG"@ + signal_name_at(i),
{
    reveal_strlit("SIG");
    reveal_strlit("HUP");
    reveal_strlit("INT");
    reveal_strlit("QUIT");
    reveal_strlit("ILL");
    reveal_strlit("TRAP");
    reveal_strlit("ABRT");
    reveal_strlit("BUS");
    reveal_strlit("FPE");
    reveal_strlit("KILL");
    reveal_strlit("USR1");
    reveal_strlit("SEGV");
    reveal_strlit("USR2");
    reveal_strlit("PIPE");
    reveal_strlit("ALRM");
    reveal_strlit("TERM");
    reveal_strlit("CONT");
    reveal_strlit("WINCH");
    reveal_strlit("TTIN");
    reveal_strlit("TTOU");
    reveal_strlit("SIGHUP");
    reveal_strlit("SIGINT");
    reveal_strlit("SIGQUIT");
    reveal_strlit("SIGILL");
    reveal_strlit("SIGTRAP");
    reveal_strlit("SIGABRT");
    reveal_strlit("SIGBUS");
    reveal_strlit("SIGFPE");
    reveal_strlit("SIGKILL");
    reveal_strlit("SIGUSR1");
    reveal_strlit("SIGSEGV");
    reveal_strlit("SIGUSR2");
    reveal_strlit("SIGPIPE");
    reveal_strlit("SIGALRM");
    reveal_strlit("SIGTERM");
    reveal_strlit("SIGCONT");
    reveal_strlit("SIGWINCH");
    reveal_strlit("SIGTTIN");
    reveal_strlit("SIGTTOU");
    assert(signal_prefixed_at(i) =~= "SIG"@ + signal_name_at(i));
}

/// Canonicalization is idempotent: the canonical token of a raw name is its
/// own canonical form.
pub proof fn lemma_canonical_idempotent(s: Seq<char>, c: Seq<char>)
    requires
        canonical_of(s) == Some(c),
    ensures
        canonical_of(c) == Some(c),
{
    assert(is_catalog_name(c));
    let i = choose|i: int| 0 <= i < 19 && c == signal_name_at(i);
    lemma_catalog_name_fixed(i);
}

/// The canonical catalog token for a raw signal name: trimmed of
/// whitespace, upper-cased, tolerating a leading `SIG`.
pub fn canonical_signal_name(raw: &str) -> (r: Option<&'static str>)
    ensures
        match r {
            Some(name) => canonical_of(raw@) == Some(name@),
            None => canonical_of(raw@) is None,
        },
{
    match canonical_signal_index(raw) {
        Some(i) => Some(signal_name(i)),
        None => None,
    }
}

/// The signal number of a canonical token; `None` for any other string.
pub fn signal_from_canonical(name: &str) -> (r: Option<i32>)
    ensures
        r == lookup_value(name@, 0),
{
    let mut i: usize = 0;
    while i < 19
        invariant
            i <= 19,
            lookup_value(name@, 0) == lookup_value(name@, i as int),
        decreases 19 - i,
    {
        let chars = str_chars(name);
        if chars_eq_str(&chars, 0, chars.len(), signal_name(i)) {
            proof {
                assert(chars@.subrange(0, chars@.len() as int) =~= name@);
            }
            return Some(signal_value(i));
        }
        proof {
            assert(chars@.subrange(0, chars@.len() as int) =~= name@);
        }
        i += 1;
    }
    None
}

/// The signal number a raw name resolves to, through canonicalization.
pub fn signal_from_str(raw: &str) -> (r: Option<i32>)
    ensures
        r == signal_of(raw@),
{
    match canonical_signal_name(raw) {
        Some(name) => signal_from_canonical(name),
        None => None,
    }
}

/// The signal number a raw name resolves to; the lookup used for the
/// parent-death signal option.
pub fn signal_by_name(name: &str) -> (r: Option<i32>)
    ensures
        r == signal_of(name@),
{
    signal_from_str(name)
}

} // verus!
