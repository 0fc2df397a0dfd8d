//! The supervisor event loop as a state machine, and the exit policy.
//!
//! The host layer owns the signal file descriptor and the clock; it polls,
//! drains signal records, and calls `waitpid`. Every decision — what to
//! forward and where, when to arm the shutdown deadline, when to escalate
//! to the forced kill, what each reap means — is taken here, so that the
//! loop's behavior is fixed by these contracts for every sequence of
//! events the host can observe.

use std::collections::HashSet;

use vstd::prelude::*;

use crate::signals::{is_termination_intent, is_termination_signal, SIGCHLD};

verus! {

broadcast use vstd::std_specs::hash::group_hash_axioms;

/// What one non-blocking `waitpid` call reported.
#[derive(Debug, PartialEq, Eq, Structural, Clone, Copy)]
pub enum WaitOutcome {
    /// A child exited normally with the given code.
    Exited { pid: i32, code: i32 },
    /// A child was killed by the given signal.
    Signaled { pid: i32, sig: i32 },
    /// A child was stopped by the given signal; not a termination.
    Stopped { pid: i32, sig: i32 },
    /// A child was resumed; not a termination.
    Continued { pid: i32 },
    /// No child has changed state.
    StillAlive,
    /// There are no children left to wait for.
    NoChildren,
    /// The call was interrupted before any state was consumed.
    Interrupted,
    /// Some other, unhandled kind of state change.
    OtherStatus,
    /// The call failed with the given error number.
    Failed { errno: i32 },
}

/// A reported signal death carries a real signal number.
pub open spec fn wait_outcome_valid(o: WaitOutcome) -> bool {
    match o {
        WaitOutcome::Signaled { pid, sig } => 1 <= sig <= 31,
        _ => true,
    }
}

/// What the loop does with one record read from the signal descriptor.
#[derive(Debug, PartialEq, Eq, Structural, Clone, Copy)]
pub enum SignalDisposition {
    /// Child-termination notification: drain the reaper.
    Reap,
    /// Deliver the signal to the child, or to its group when `group`.
    Forward { group: bool, sig: i32 },
    /// The main child has already terminated; nothing is delivered.
    Discard { sig: i32 },
    /// The number is no known signal: warn and ignore.
    Unknown { signo: u32 },
}

/// What one reaped status means for the loop.
#[derive(Debug, PartialEq, Eq, Structural, Clone, Copy)]
pub enum ReapDisposition {
    /// The main child's termination was recorded just now; keep draining.
    Recorded,
    /// Some other descendant was reaped; log it and keep draining.
    Secondary { pid: i32, warn: bool },
    /// A child stopped; log it and stop draining.
    StoppedChild { pid: i32, sig: i32, warn: bool },
    /// A child was resumed; log it and stop draining.
    ContinuedChild { pid: i32, warn: bool },
    /// Nothing further to consume; stop draining.
    StopDraining,
    /// The call was interrupted; repeat it.
    Retry,
    /// An unexpected error; the supervisor fails.
    Fatal { errno: i32 },
}

/// The supervisor: its configuration, fixed after construction, and the
/// mutable loop state.
#[derive(Debug, PartialEq, Eq, Structural, Clone, Copy)]
pub struct Supervisor {
    /// Process id of the main child.
    pub child_pid: i32,
    /// Elevate secondary reap logs from debug to warn.
    pub warn_on_reap: bool,
    /// Whether group-wide shutdown was requested.
    pub pgroup_kill: bool,
    /// Whether group-wide kill remains enabled after the best-effort
    /// process-group step.
    pub use_pgroup: bool,
    /// Grace period in milliseconds before escalation.
    pub grace_ms: u64,
    /// The main child's recorded exit code, set at most once.
    pub main_exit: Option<i32>,
    /// Instant at which the loop escalates to the forced kill.
    pub shutdown_deadline: Option<u64>,
    /// Whether the forced kill was already issued.
    pub sigkill_sent: bool,
}

/// The state and disposition after one signal record: the
/// child-termination signal asks for a reap; any other known signal is
/// forwarded while the main child lives, and a first termination intent
/// arms the shutdown deadline at `now` plus the grace period when
/// group-wide shutdown was requested; unknown numbers are ignored.
pub open spec fn spec_handle_signal(s: Supervisor, signo: u32, now: u64) -> (
    Supervisor,
    SignalDisposition,
) {
    if signo == SIGCHLD as u32 {
        (s, SignalDisposition::Reap)
    } else if 1 <= signo <= 31 {
        let sig = signo as i32;
        if s.main_exit is Some {
            (s, SignalDisposition::Discard { sig })
        } else {
            let s2 = if s.pgroup_kill && is_termination_intent(sig) && !s.sigkill_sent
                && s.shutdown_deadline is None {
                Supervisor { shutdown_deadline: Some((now + s.grace_ms) as u64), ..s }
            } else {
                s
            };
            (s2, SignalDisposition::Forward { group: s.use_pgroup, sig })
        }
    } else {
        (s, SignalDisposition::Unknown { signo })
    }
}

/// The state and disposition after one reaped status: the main child's
/// first observed termination is recorded — its code for a normal exit,
/// 128 plus the signal number for a signal death; every other termination,
/// a repeated one for the main pid included, is a secondary reap. Stop and
/// continue events are logged and end the drain without recording
/// anything.
pub open spec fn spec_handle_wait(s: Supervisor, o: WaitOutcome) -> (Supervisor, ReapDisposition) {
    match o {
        WaitOutcome::Exited { pid, code } => {
            if pid == s.child_pid && s.main_exit is None {
                (Supervisor { main_exit: Some(code), ..s }, ReapDisposition::Recorded)
            } else {
                (s, ReapDisposition::Secondary { pid, warn: s.warn_on_reap })
            }
        },
        WaitOutcome::Signaled { pid, sig } => {
            if pid == s.child_pid && s.main_exit is None {
                (
                    Supervisor { main_exit: Some((128 + sig) as i32), ..s },
                    ReapDisposition::Recorded,
                )
            } else {
                (s, ReapDisposition::Secondary { pid, warn: s.warn_on_reap })
            }
        },
        WaitOutcome::Stopped { pid, sig } => (
            s,
            ReapDisposition::StoppedChild { pid, sig, warn: s.warn_on_reap },
        ),
        WaitOutcome::Continued { pid } => (
            s,
            ReapDisposition::ContinuedChild { pid, warn: s.warn_on_reap },
        ),
        WaitOutcome::StillAlive => (s, ReapDisposition::StopDraining),
        WaitOutcome::NoChildren => (s, ReapDisposition::StopDraining),
        WaitOutcome::OtherStatus => (s, ReapDisposition::StopDraining),
        WaitOutcome::Interrupted => (s, ReapDisposition::Retry),
        WaitOutcome::Failed { errno } => (s, ReapDisposition::Fatal { errno }),
    }
}

/// The state after the deadline check, and whether to issue the forced
/// kill now — to the group when the second component is `Some(true)`, to
/// the child alone when `Some(false)`.
pub open spec fn spec_check_deadline(s: Supervisor, now: u64) -> (Supervisor, Option<bool>) {
    match s.shutdown_deadline {
        Some(d) => {
            if !s.sigkill_sent && s.main_exit is None && now >= d {
                (Supervisor { sigkill_sent: true, ..s }, Some(s.use_pgroup))
            } else {
                (s, None)
            }
        },
        None => (s, None),
    }
}

/// The poll timeout: the time left until the shutdown deadline while an
/// escalation is pending, infinite (`None`) otherwise.
pub open spec fn spec_poll_timeout(s: Supervisor, now: u64) -> Option<u64> {
    match s.shutdown_deadline {
        Some(d) => {
            if !s.sigkill_sent && s.main_exit is None {
                Some(
                    if d > now {
                        (d - now) as u64
                    } else {
                        0u64
                    },
                )
            } else {
                None
            }
        },
        None => None,
    }
}

impl Supervisor {
    /// A fresh supervisor for a just-spawned child: nothing recorded, no
    /// deadline armed, no forced kill sent.
    pub fn new(
        child_pid: i32,
        warn_on_reap: bool,
        pgroup_kill: bool,
        use_pgroup: bool,
        grace_ms: u64,
    ) -> (s: Supervisor)
        ensures
            s == (Supervisor {
                child_pid,
                warn_on_reap,
                pgroup_kill,
                use_pgroup,
                grace_ms,
                main_exit: None::<i32>,
                shutdown_deadline: None::<u64>,
                sigkill_sent: false,
            }),
    {
        Supervisor {
            child_pid,
            warn_on_reap,
            pgroup_kill,
            use_pgroup,
            grace_ms,
            main_exit: None,
            shutdown_deadline: None,
            sigkill_sent: false,
        }
    }

    /// The timeout for the next poll, per `spec_poll_timeout`.
    pub fn poll_timeout(&self, now: u64) -> (t: Option<u64>)
        ensures
            t == spec_poll_timeout(*self, now),
    {
        match self.shutdown_deadline {
            Some(d) => {
                if !self.sigkill_sent && self.main_exit.is_none() {
                    Some(
                        if d > now {
                            d - now
                        } else {
                            0
                        },
                    )
                } else {
                    None
                }
            },
            None => None,
        }
    }

    /// Takes one record read from the signal descriptor. While the main
    /// child lives, every known signal other than the child-termination
    /// notification is forwarded exactly once, to the group when group
    /// kill is in use.
    pub fn handle_signal_record(&mut self, signo: u32, now: u64) -> (d: SignalDisposition)
        requires
            now + old(self).grace_ms <= u64::MAX,
        ensures
            (*final(self), d) == spec_handle_signal(*old(self), signo, now),
            old(self).main_exit is None && 1 <= signo <= 31 && signo != SIGCHLD as u32 ==> d
                == (SignalDisposition::Forward { group: old(self).use_pgroup, sig: signo as i32 }),
    {
        if signo == 17 {
            SignalDisposition::Reap
        } else if 1 <= signo && signo <= 31 {
            let sig = signo as i32;
            if self.main_exit.is_some() {
                SignalDisposition::Discard { sig }
            } else {
                if self.pgroup_kill && is_termination_signal(sig) && !self.sigkill_sent
                    && self.shutdown_deadline.is_none() {
                    self.shutdown_deadline = Some(now + self.grace_ms);
                }
                SignalDisposition::Forward { group: self.use_pgroup, sig }
            }
        } else {
            SignalDisposition::Unknown { signo }
        }
    }

    /// Takes one reaped status, recording the main child's first observed
    /// termination.
    pub fn handle_wait_status(&mut self, outcome: WaitOutcome) -> (d: ReapDisposition)
        requires
            wait_outcome_valid(outcome),
        ensures
            (*final(self), d) == spec_handle_wait(*old(self), outcome),
    {
        match outcome {
            WaitOutcome::Exited { pid, code } => {
                if pid == self.child_pid && self.main_exit.is_none() {
                    self.main_exit = Some(code);
                    ReapDisposition::Recorded
                } else {
                    ReapDisposition::Secondary { pid, warn: self.warn_on_reap }
                }
            },
            WaitOutcome::Signaled { pid, sig } => {
                if pid == self.child_pid && self.main_exit.is_none() {
                    self.main_exit = Some(128 + sig);
                    ReapDisposition::Recorded
                } else {
                    ReapDisposition::Secondary { pid, warn: self.warn_on_reap }
                }
            },
            WaitOutcome::Stopped { pid, sig } => ReapDisposition::StoppedChild {
                pid,
                sig,
                warn: self.warn_on_reap,
            },
            WaitOutcome::Continued { pid } => ReapDisposition::ContinuedChild {
                pid,
                warn: self.warn_on_reap,
            },
            WaitOutcome::StillAlive => ReapDisposition::StopDraining,
            WaitOutcome::NoChildren => ReapDisposition::StopDraining,
            WaitOutcome::OtherStatus => ReapDisposition::StopDraining,
            WaitOutcome::Interrupted => ReapDisposition::Retry,
            WaitOutcome::Failed { errno } => ReapDisposition::Fatal { errno },
        }
    }

    /// The end-of-iteration deadline check: issues the forced kill once the
    /// deadline has passed, at most once, and only while the main child has
    /// not terminated.
    pub fn check_deadline(&mut self, now: u64) -> (kill: Option<bool>)
        ensures
            (*final(self), kill) == spec_check_deadline(*old(self), now),
    {
        match self.shutdown_deadline {
            Some(d) => {
                if !self.sigkill_sent && self.main_exit.is_none() && now >= d {
                    self.sigkill_sent = true;
                    Some(self.use_pgroup)
                } else {
                    None
                }
            },
            None => None,
        }
    }

    /// Whether the loop is done: the main child has terminated.
    pub fn should_exit(&self) -> (r: bool)
        ensures
            r == (self.main_exit is Some),
    {
        self.main_exit.is_some()
    }
}

/// One observation the loop feeds into the state machine.
#[derive(Debug, PartialEq, Eq, Structural, Clone, Copy)]
pub enum LoopEvent {
    /// A record read from the signal descriptor at instant `now`.
    SignalRecord { signo: u32, now: u64 },
    /// A status reported by the non-blocking reaper.
    WaitReport { outcome: WaitOutcome },
    /// The end-of-iteration deadline check at instant `now`.
    DeadlineCheck { now: u64 },
}

/// The state after one observation.
pub open spec fn spec_step(s: Supervisor, e: LoopEvent) -> Supervisor {
    match e {
        LoopEvent::SignalRecord { signo, now } => spec_handle_signal(s, signo, now).0,
        LoopEvent::WaitReport { outcome } => spec_handle_wait(s, outcome).0,
        LoopEvent::DeadlineCheck { now } => spec_check_deadline(s, now).0,
    }
}

/// Whether the observation makes the loop issue the forced kill.
pub open spec fn step_sends_kill(s: Supervisor, e: LoopEvent) -> bool {
    match e {
        LoopEvent::DeadlineCheck { now } => spec_check_deadline(s, now).1 is Some,
        _ => false,
    }
}

/// Whether the observation is a termination-intent forward that arms the
/// shutdown deadline: a known, forwarded terminate, interrupt or quit,
/// arriving with group shutdown requested, the main child alive, no forced
/// kill sent, and no deadline armed yet.
pub open spec fn step_arms_deadline(s: Supervisor, e: LoopEvent) -> bool {
    match e {
        LoopEvent::SignalRecord { signo, now } => {
            &&& s.shutdown_deadline is None
            &&& s.main_exit is None
            &&& !s.sigkill_sent
            &&& s.pgroup_kill
            &&& 1 <= signo <= 31
            &&& signo != SIGCHLD as u32
            &&& is_termination_intent(signo as i32)
        },
        _ => false,
    }
}

/// The instant an observation carries; reap reports carry none.
pub open spec fn event_now(e: LoopEvent) -> u64 {
    match e {
        LoopEvent::SignalRecord { signo, now } => now,
        LoopEvent::DeadlineCheck { now } => now,
        LoopEvent::WaitReport { outcome } => 0u64,
    }
}

/// An observation the host can hand to the state machine without
/// overflowing the deadline arithmetic.
pub open spec fn event_in_range(e: LoopEvent, grace_ms: u64) -> bool {
    match e {
        LoopEvent::SignalRecord { signo, now } => now + grace_ms <= u64::MAX,
        _ => true,
    }
}

/// The state after the first `i` of a sequence of observations.
pub open spec fn state_at(s0: Supervisor, events: Seq<LoopEvent>, i: int) -> Supervisor
    decreases i,
{
    if i <= 0 {
        s0
    } else {
        spec_step(state_at(s0, events, i - 1), events[i - 1])
    }
}

/// No observation changes the configuration fields.
pub proof fn lemma_config_stable(s: Supervisor, e: LoopEvent)
    ensures
        spec_step(s, e).child_pid == s.child_pid,
        spec_step(s, e).warn_on_reap == s.warn_on_reap,
        spec_step(s, e).pgroup_kill == s.pgroup_kill,
        spec_step(s, e).use_pgroup == s.use_pgroup,
        spec_step(s, e).grace_ms == s.grace_ms,
{
}

/// The shutdown deadline is monotonic: once armed, no observation moves
/// it, later or earlier.
pub proof fn lemma_deadline_stable(s: Supervisor, e: LoopEvent)
    requires
        s.shutdown_deadline is Some,
    ensures
        spec_step(s, e).shutdown_deadline == s.shutdown_deadline,
{
}

/// The main child's exit is recorded exactly once: once set, no
/// observation changes it.
pub proof fn lemma_main_exit_stable(s: Supervisor, e: LoopEvent)
    requires
        s.main_exit is Some,
    ensures
        spec_step(s, e).main_exit == s.main_exit,
{
}

/// Once the forced kill was issued, no observation forgets that.
pub proof fn lemma_sigkill_flag_stable(s: Supervisor, e: LoopEvent)
    requires
        s.sigkill_sent,
    ensures
        spec_step(s, e).sigkill_sent,
{
}

/// The recorded exit persists through every later observation: with no
/// remapping configured, the code the supervisor reports is exactly the
/// code the main child terminated with, however the rest of the run goes.
pub proof fn lemma_main_exit_persists(s0: Supervisor, events: Seq<LoopEvent>, i: int, k: int)
    requires
        0 <= i <= k <= events.len(),
        state_at(s0, events, i).main_exit is Some,
    ensures
        state_at(s0, events, k).main_exit == state_at(s0, events, i).main_exit,
    decreases k - i,
{
    if i < k {
        lemma_main_exit_persists(s0, events, i, k - 1);
        lemma_main_exit_stable(state_at(s0, events, k - 1), events[k - 1]);
    }
}

/// The escalation is issued at most once: after the observation that sends
/// the forced kill, no later observation sends it again.
pub proof fn lemma_forced_kill_at_most_once(s0: Supervisor, events: Seq<LoopEvent>, j: int, k: int)
    requires
        0 <= j < k < events.len(),
        step_sends_kill(state_at(s0, events, j), events[j]),
    ensures
        !step_sends_kill(state_at(s0, events, k), events[k]),
{
    assert(state_at(s0, events, j + 1).sigkill_sent);
    lemma_sigkill_stays(s0, events, j + 1, k);
}

/// The forced-kill flag, once set in a run, stays set.
proof fn lemma_sigkill_stays(s0: Supervisor, events: Seq<LoopEvent>, i: int, k: int)
    requires
        0 <= i <= k <= events.len(),
        state_at(s0, events, i).sigkill_sent,
    ensures
        state_at(s0, events, k).sigkill_sent,
    decreases k - i,
{
    if i < k {
        lemma_sigkill_stays(s0, events, i, k - 1);
        lemma_sigkill_flag_stable(state_at(s0, events, k - 1), events[k - 1]);
    }
}

/// Once the main child's termination is recorded, no signal record is
/// forwarded any more: the loop only drains remaining children.
pub proof fn lemma_no_forwarding_after_exit(s: Supervisor, signo: u32, now: u64)
    requires
        s.main_exit is Some,
    ensures
        !(spec_handle_signal(s, signo, now).1 is Forward),
{
}

/// Every armed deadline stems from an earlier termination-intent forward,
/// and lies the grace period after it.
proof fn lemma_deadline_provenance(s0: Supervisor, events: Seq<LoopEvent>, i: int)
    requires
        s0.shutdown_deadline is None,
        0 <= i <= events.len(),
        forall|j: int| 0 <= j < events.len() ==> event_in_range(#[trigger] events[j], s0.grace_ms),
    ensures
        state_at(s0, events, i).grace_ms == s0.grace_ms,
        match state_at(s0, events, i).shutdown_deadline {
            Some(d) => exists|j: int|
                0 <= j < i && step_arms_deadline(state_at(s0, events, j), #[trigger] events[j])
                    && d == event_now(events[j]) + s0.grace_ms,
            None => true,
        },
    decreases i,
{
    if i > 0 {
        lemma_deadline_provenance(s0, events, i - 1);
        let prev = state_at(s0, events, i - 1);
        let e = events[i - 1];
        lemma_config_stable(prev, e);
        match prev.shutdown_deadline {
            Some(d) => {
                lemma_deadline_stable(prev, e);
            },
            None => {
                if state_at(s0, events, i).shutdown_deadline is Some {
                    assert(step_arms_deadline(prev, e));
                }
            },
        }
    }
}

/// The forced-kill signal is never issued before the shutdown deadline has
/// elapsed: the deadline check that sends it happens at or after the
/// instant of the termination-intent forward that armed the deadline, plus
/// the grace period.
pub proof fn lemma_no_forced_kill_before_deadline(s0: Supervisor, events: Seq<LoopEvent>, k: int)
    requires
        s0.shutdown_deadline is None,
        0 <= k < events.len(),
        forall|j: int| 0 <= j < events.len() ==> event_in_range(#[trigger] events[j], s0.grace_ms),
        step_sends_kill(state_at(s0, events, k), events[k]),
    ensures
        exists|j: int|
            0 <= j < k && step_arms_deadline(state_at(s0, events, j), #[trigger] events[j])
                && event_now(events[k]) >= event_now(events[j]) + s0.grace_ms,
{
    lemma_deadline_provenance(s0, events, k);
}

/// With a zero grace period, a termination-intent forward arms the
/// deadline at the present instant, and the deadline check of the same
/// iteration already issues the forced kill.
pub proof fn lemma_zero_grace_escalates_immediately(s: Supervisor, signo: u32, now: u64)
    requires
        s.grace_ms == 0,
        s.shutdown_deadline is None,
        s.main_exit is None,
        !s.sigkill_sent,
        s.pgroup_kill,
        1 <= signo <= 31,
        signo != SIGCHLD as u32,
        is_termination_intent(signo as i32),
    ensures
        spec_check_deadline(spec_handle_signal(s, signo, now).0, now).1 is Some,
{
}

/// The low 8 bits of an exit code.
pub open spec fn low_byte(code: i32) -> u8 {
    (code & 255) as u8
}

/// The exit policy: the recorded exit code, 0 when unset, reported as 0
/// when its low 8 bits are in the remap set, unchanged otherwise.
pub open spec fn spec_exit_code(main_exit: Option<i32>, remap: Set<u8>) -> i32 {
    let code = match main_exit {
        Some(c) => c,
        None => 0,
    };
    if remap.contains(low_byte(code)) {
        0
    } else {
        code
    }
}

/// Maps the main child's recorded exit code to the supervisor's own.
pub fn compute_exit_code(main_exit: Option<i32>, expect_zero: &HashSet<u8>) -> (r: i32)
    ensures
        r == spec_exit_code(main_exit, expect_zero@),
{
    let code: i32 = match main_exit {
        Some(c) => c,
        None => 0,
    };
    let masked: i32 = code & 255;
    proof {
        assert(0 <= code & 255 < 256) by (bit_vector);
    }
    let low: u8 = masked as u8;
    if expect_zero.contains(&low) {
        0
    } else {
        code
    }
}

/// An exit code whose low byte is in the remap set is reported as 0.
pub proof fn lemma_remapped_exit_is_zero(code: i32, remap: Set<u8>)
    requires
        remap.contains(low_byte(code)),
    ensures
        spec_exit_code(Some(code), remap) == 0,
{
}

/// An exit code whose low byte is not in the remap set is reported
/// unchanged: with no remapping configured, the supervisor's exit code is
/// the child's.
pub proof fn lemma_exit_code_propagates(code: i32, remap: Set<u8>)
    requires
        !remap.contains(low_byte(code)),
    ensures
        spec_exit_code(Some(code), remap) == code,
{
}

/// What the host observed when it tried to move the child into its own
/// process group.
#[derive(Debug, PartialEq, Eq, Structural, Clone, Copy)]
pub enum SetpgidOutcome {
    /// Group kill was not requested, so nothing was attempted.
    NotAttempted,
    /// The child now leads its own group.
    Success,
    /// Permission was denied; `child_leads_group` reports whether the
    /// child had already entered its own group on its side of the fork.
    PermissionDenied { child_leads_group: bool },
    /// The child no longer exists: it terminated before the call.
    NoSuchProcess,
    /// Some other error.
    OtherError { errno: i32 },
}

/// Whether group-wide kill stays enabled, and whether to warn about the
/// downgrade.
#[derive(Debug, PartialEq, Eq, Structural, Clone, Copy)]
pub struct PgroupDecision {
    /// Group-wide kill remains in use.
    pub use_pgroup: bool,
    /// The downgrade deserves a warning.
    pub warn: bool,
}

/// The best-effort process-group policy: group kill stays on after
/// success, or when permission was denied because the child already leads
/// its own group; a child that exited first downgrades silently; any other
/// error downgrades with a warning.
pub open spec fn spec_manage_pgroup(requested: bool, outcome: SetpgidOutcome) -> PgroupDecision {
    if !requested {
        PgroupDecision { use_pgroup: false, warn: false }
    } else {
        match outcome {
            SetpgidOutcome::NotAttempted => PgroupDecision { use_pgroup: false, warn: false },
            SetpgidOutcome::Success => PgroupDecision { use_pgroup: true, warn: false },
            SetpgidOutcome::PermissionDenied { child_leads_group } => {
                if child_leads_group {
                    PgroupDecision { use_pgroup: true, warn: false }
                } else {
                    PgroupDecision { use_pgroup: false, warn: true }
                }
            },
            SetpgidOutcome::NoSuchProcess => PgroupDecision { use_pgroup: false, warn: false },
            SetpgidOutcome::OtherError { errno } => PgroupDecision { use_pgroup: false, warn: true },
        }
    }
}

/// Decides whether group-wide kill remains enabled after the parent's
/// best-effort `setpgid` on the child.
pub fn manage_process_group(requested: bool, outcome: SetpgidOutcome) -> (r: PgroupDecision)
    requires
        requested <==> !(outcome is NotAttempted),
    ensures
        r == spec_manage_pgroup(requested, outcome),
{
    if !requested {
        PgroupDecision { use_pgroup: false, warn: false }
    } else {
        match outcome {
            SetpgidOutcome::NotAttempted => PgroupDecision { use_pgroup: false, warn: false },
            SetpgidOutcome::Success => PgroupDecision { use_pgroup: true, warn: false },
            SetpgidOutcome::PermissionDenied { child_leads_group } => {
                if child_leads_group {
                    PgroupDecision { use_pgroup: true, warn: false }
                } else {
                    PgroupDecision { use_pgroup: false, warn: true }
                }
            },
            SetpgidOutcome::NoSuchProcess => PgroupDecision { use_pgroup: false, warn: false },
            SetpgidOutcome::OtherError { errno: _ } => PgroupDecision {
                use_pgroup: false,
                warn: true,
            },
        }
    }
}

/// What one reaped status means for the post-loop drain.
#[derive(Debug, PartialEq, Eq, Structural, Clone, Copy)]
pub enum DrainDisposition {
    /// A terminated descendant was consumed; log it and keep draining.
    Reaped { pid: i32, warn: bool },
    /// A stop or continue event; keep draining.
    OtherEvent,
    /// Nothing ready right now; consult the clock.
    NoneReady,
    /// No children remain: the tree is fully reaped.
    AllReaped,
    /// The call was interrupted; repeat it.
    Retry,
    /// An unexpected error; the supervisor fails.
    Fatal { errno: i32 },
}

/// The post-loop drain policy for one reaped status.
pub open spec fn spec_drain(o: WaitOutcome, warn_on_reap: bool) -> DrainDisposition {
    match o {
        WaitOutcome::Exited { pid, code } => DrainDisposition::Reaped { pid, warn: warn_on_reap },
        WaitOutcome::Signaled { pid, sig } => DrainDisposition::Reaped { pid, warn: warn_on_reap },
        WaitOutcome::Stopped { pid, sig } => DrainDisposition::OtherEvent,
        WaitOutcome::Continued { pid } => DrainDisposition::OtherEvent,
        WaitOutcome::OtherStatus => DrainDisposition::OtherEvent,
        WaitOutcome::StillAlive => DrainDisposition::NoneReady,
        WaitOutcome::NoChildren => DrainDisposition::AllReaped,
        WaitOutcome::Interrupted => DrainDisposition::Retry,
        WaitOutcome::Failed { errno } => DrainDisposition::Fatal { errno },
    }
}

/// Classifies one reaped status for the time-bounded drain that winds the
/// remaining descendants up.
pub fn drain_wait_outcome(o: WaitOutcome, warn_on_reap: bool) -> (r: DrainDisposition)
    ensures
        r == spec_drain(o, warn_on_reap),
{
    match o {
        WaitOutcome::Exited { pid, code: _ } => DrainDisposition::Reaped { pid, warn: warn_on_reap },
        WaitOutcome::Signaled { pid, sig: _ } => DrainDisposition::Reaped {
            pid,
            warn: warn_on_reap,
        },
        WaitOutcome::Stopped { pid: _, sig: _ } => DrainDisposition::OtherEvent,
        WaitOutcome::Continued { pid: _ } => DrainDisposition::OtherEvent,
        WaitOutcome::OtherStatus => DrainDisposition::OtherEvent,
        WaitOutcome::StillAlive => DrainDisposition::NoneReady,
        WaitOutcome::NoChildren => DrainDisposition::AllReaped,
        WaitOutcome::Interrupted => DrainDisposition::Retry,
        WaitOutcome::Failed { errno } => DrainDisposition::Fatal { errno },
    }
}

/// What the drain does when no child was ready: give up, or sleep a short
/// increment bounded by the time that remains.
#[derive(Debug, PartialEq, Eq, Structural, Clone, Copy)]
pub enum DrainTiming {
    /// The timeout has elapsed (or was zero): stop, children remain.
    GiveUp,
    /// Sleep this many milliseconds, then try again.
    Sleep { ms: u64 },
}

/// The drain's clock policy: a zero timeout never waits; otherwise sleep
/// in increments of at most 10 ms, capped by the time remaining.
pub open spec fn spec_drain_timing(timeout_ms: u64, start: u64, now: u64) -> DrainTiming {
    if timeout_ms == 0 {
        DrainTiming::GiveUp
    } else if now - start >= timeout_ms {
        DrainTiming::GiveUp
    } else {
        let remaining = timeout_ms - (now - start);
        DrainTiming::Sleep {
            ms: if remaining < 10 {
                remaining as u64
            } else {
                10u64
            },
        }
    }
}

/// Decides whether the time-bounded drain keeps waiting.
pub fn drain_timing(timeout_ms: u64, start: u64, now: u64) -> (r: DrainTiming)
    requires
        start <= now,
    ensures
        r == spec_drain_timing(timeout_ms, start, now),
{
    if timeout_ms == 0 {
        return DrainTiming::GiveUp;
    }
    let elapsed = now - start;
    if elapsed >= timeout_ms {
        DrainTiming::GiveUp
    } else {
        let remaining = timeout_ms - elapsed;
        DrainTiming::Sleep {
            ms: if remaining < 10 {
                remaining
            } else {
                10
            },
        }
    }
}

/// After the graceful group terminate, the shutdown escalates to the
/// forced kill exactly when group kill is in use and descendants remain.
pub fn shutdown_escalates(use_pgroup: bool, fully_reaped: bool) -> (r: bool)
    ensures
        r == (use_pgroup && !fully_reaped),
{
    use_pgroup && !fully_reaped
}

/// After the forced kill, a warning is owed exactly when descendants still
/// remain.
pub fn shutdown_warns_remaining(escalated: bool, fully_reaped: bool) -> (r: bool)
    ensures
        r == (escalated && !fully_reaped),
{
    escalated && !fully_reaped
}

} // verus!
