//! The supervisor event loop's state machine, the exit policy, and the
//! shutdown decisions.

use std::collections::HashSet;

use tino::supervisor::{
    compute_exit_code, drain_timing, drain_wait_outcome, manage_process_group, DrainDisposition,
    DrainTiming, PgroupDecision, ReapDisposition, SetpgidOutcome, SignalDisposition, Supervisor,
    WaitOutcome,
};

fn fresh(pgroup: bool) -> Supervisor {
    Supervisor::new(100, false, pgroup, pgroup, 500)
}

#[test]
fn compute_exit_code_remaps_expected_values() {
    let mut expect_zero = HashSet::new();
    expect_zero.insert(3);
    assert_eq!(compute_exit_code(Some(3), &expect_zero), 0);
    assert_eq!(compute_exit_code(Some(5), &expect_zero), 5);
    assert_eq!(compute_exit_code(None, &expect_zero), 0);
}

#[test]
fn exit_code_remaps_a_signal_death() {
    let mut expect_zero = HashSet::new();
    expect_zero.insert(137);
    assert_eq!(compute_exit_code(Some(137), &expect_zero), 0);
    assert_eq!(compute_exit_code(Some(9), &expect_zero), 9);
}

#[test]
fn exit_code_matches_the_low_byte() {
    let mut expect_zero = HashSet::new();
    expect_zero.insert(3);
    assert_eq!(compute_exit_code(Some(259), &expect_zero), 0, "259 & 255 == 3");
    assert_eq!(compute_exit_code(Some(256), &expect_zero), 256);
}

#[test]
fn forwarded_signal_is_delivered_exactly_once_to_the_child() {
    let mut sup = fresh(false);
    let d = sup.handle_signal_record(10, 0);
    assert_eq!(d, SignalDisposition::Forward { group: false, sig: 10 });
    assert!(sup.shutdown_deadline.is_none(), "USR1 is no termination intent");
}

#[test]
fn forwarded_signal_targets_the_group_when_group_kill_is_active() {
    let mut sup = fresh(true);
    let d = sup.handle_signal_record(15, 1000);
    assert_eq!(d, SignalDisposition::Forward { group: true, sig: 15 });
    assert_eq!(sup.shutdown_deadline, Some(1500), "TERM arms now + grace");
}

#[test]
fn sigchld_asks_for_a_reap_and_unknown_numbers_are_ignored() {
    let mut sup = fresh(false);
    assert_eq!(sup.handle_signal_record(17, 0), SignalDisposition::Reap);
    assert_eq!(
        sup.handle_signal_record(99, 0),
        SignalDisposition::Unknown { signo: 99 }
    );
    assert!(sup.shutdown_deadline.is_none());
}

#[test]
fn nothing_is_forwarded_after_the_main_child_exited() {
    let mut sup = fresh(false);
    sup.handle_wait_status(WaitOutcome::Exited { pid: 100, code: 0 });
    let d = sup.handle_signal_record(15, 0);
    assert_eq!(d, SignalDisposition::Discard { sig: 15 });
}

#[test]
fn main_child_exit_is_recorded_once_and_ends_the_loop() {
    let mut sup = fresh(false);
    assert!(!sup.should_exit());
    let d = sup.handle_wait_status(WaitOutcome::Exited { pid: 100, code: 7 });
    assert_eq!(d, ReapDisposition::Recorded);
    assert_eq!(sup.main_exit, Some(7));
    assert!(sup.should_exit());

    let d = sup.handle_wait_status(WaitOutcome::Exited { pid: 100, code: 9 });
    assert_eq!(d, ReapDisposition::Secondary { pid: 100, warn: false });
    assert_eq!(sup.main_exit, Some(7), "a second report does not overwrite");
}

#[test]
fn exit_code_equals_the_childs_without_signals_or_remapping() {
    let mut sup = fresh(false);
    sup.handle_wait_status(WaitOutcome::Exited { pid: 100, code: 42 });
    assert_eq!(compute_exit_code(sup.main_exit, &HashSet::new()), 42);
}

#[test]
fn signal_death_is_recorded_as_128_plus_the_signal() {
    let mut sup = fresh(false);
    let d = sup.handle_wait_status(WaitOutcome::Signaled { pid: 100, sig: 9 });
    assert_eq!(d, ReapDisposition::Recorded);
    assert_eq!(sup.main_exit, Some(137));
}

#[test]
fn secondary_reaps_warn_when_asked_to() {
    let mut sup = Supervisor::new(100, true, false, false, 500);
    let d = sup.handle_wait_status(WaitOutcome::Exited { pid: 321, code: 0 });
    assert_eq!(d, ReapDisposition::Secondary { pid: 321, warn: true });
    assert!(sup.main_exit.is_none());
}

#[test]
fn stops_and_continues_are_not_terminations() {
    let mut sup = fresh(false);
    let d = sup.handle_wait_status(WaitOutcome::Stopped { pid: 100, sig: 19 });
    assert_eq!(
        d,
        ReapDisposition::StoppedChild { pid: 100, sig: 19, warn: false }
    );
    assert!(sup.main_exit.is_none(), "a stop does not set the exit");
    let d = sup.handle_wait_status(WaitOutcome::Continued { pid: 100 });
    assert_eq!(d, ReapDisposition::ContinuedChild { pid: 100, warn: false });
    assert!(sup.main_exit.is_none());
}

#[test]
fn reaper_error_policy() {
    let mut sup = fresh(false);
    assert_eq!(
        sup.handle_wait_status(WaitOutcome::Interrupted),
        ReapDisposition::Retry
    );
    assert_eq!(
        sup.handle_wait_status(WaitOutcome::NoChildren),
        ReapDisposition::StopDraining
    );
    assert_eq!(
        sup.handle_wait_status(WaitOutcome::Failed { errno: 22 }),
        ReapDisposition::Fatal { errno: 22 }
    );
}

#[test]
fn escalation_fires_only_after_the_deadline_and_only_once() {
    let mut sup = Supervisor::new(100, false, true, true, 50);
    sup.handle_signal_record(15, 1000);
    assert_eq!(sup.shutdown_deadline, Some(1050));
    assert_eq!(sup.poll_timeout(1000), Some(50));
    assert_eq!(sup.poll_timeout(1040), Some(10));
    assert_eq!(sup.check_deadline(1049), None);
    assert!(!sup.sigkill_sent);
    assert_eq!(sup.check_deadline(1050), Some(true));
    assert!(sup.sigkill_sent);
    assert_eq!(sup.check_deadline(1100), None, "the forced kill is sent once");
    assert_eq!(sup.poll_timeout(1100), None);
}

#[test]
fn repeated_intents_do_not_extend_the_grace_period() {
    let mut sup = Supervisor::new(100, false, true, true, 100);
    sup.handle_signal_record(15, 1000);
    assert_eq!(sup.shutdown_deadline, Some(1100));
    sup.handle_signal_record(2, 1050);
    assert_eq!(sup.shutdown_deadline, Some(1100));
}

#[test]
fn zero_grace_escalates_on_the_next_check() {
    let mut sup = Supervisor::new(100, false, true, true, 0);
    let d = sup.handle_signal_record(15, 77);
    assert_eq!(d, SignalDisposition::Forward { group: true, sig: 15 });
    assert_eq!(sup.shutdown_deadline, Some(77));
    assert_eq!(sup.check_deadline(77), Some(true));
}

#[test]
fn no_deadline_is_armed_without_group_kill() {
    let mut sup = fresh(false);
    sup.handle_signal_record(15, 1000);
    assert!(sup.shutdown_deadline.is_none());
    assert_eq!(sup.poll_timeout(1000), None);
    assert_eq!(sup.check_deadline(5000), None);
}

#[test]
fn pgroup_downgrades_silently_when_the_child_already_exited() {
    let d = manage_process_group(true, SetpgidOutcome::NoSuchProcess);
    assert_eq!(d, PgroupDecision { use_pgroup: false, warn: false });
}

#[test]
fn pgroup_outcomes() {
    assert_eq!(
        manage_process_group(false, SetpgidOutcome::NotAttempted),
        PgroupDecision { use_pgroup: false, warn: false }
    );
    assert_eq!(
        manage_process_group(true, SetpgidOutcome::Success),
        PgroupDecision { use_pgroup: true, warn: false }
    );
    assert_eq!(
        manage_process_group(
            true,
            SetpgidOutcome::PermissionDenied { child_leads_group: true }
        ),
        PgroupDecision { use_pgroup: true, warn: false }
    );
    assert_eq!(
        manage_process_group(
            true,
            SetpgidOutcome::PermissionDenied { child_leads_group: false }
        ),
        PgroupDecision { use_pgroup: false, warn: true }
    );
    assert_eq!(
        manage_process_group(true, SetpgidOutcome::OtherError { errno: 22 }),
        PgroupDecision { use_pgroup: false, warn: true }
    );
}

#[test]
fn drain_classifies_each_wait_outcome() {
    assert_eq!(
        drain_wait_outcome(WaitOutcome::Exited { pid: 5, code: 0 }, true),
        DrainDisposition::Reaped { pid: 5, warn: true }
    );
    assert_eq!(
        drain_wait_outcome(WaitOutcome::Signaled { pid: 6, sig: 9 }, false),
        DrainDisposition::Reaped { pid: 6, warn: false }
    );
    assert_eq!(
        drain_wait_outcome(WaitOutcome::StillAlive, false),
        DrainDisposition::NoneReady
    );
    assert_eq!(
        drain_wait_outcome(WaitOutcome::NoChildren, false),
        DrainDisposition::AllReaped
    );
    assert_eq!(
        drain_wait_outcome(WaitOutcome::Interrupted, false),
        DrainDisposition::Retry
    );
    assert_eq!(
        drain_wait_outcome(WaitOutcome::Failed { errno: 22 }, false),
        DrainDisposition::Fatal { errno: 22 }
    );
}

#[test]
fn drain_timing_caps_sleeps_and_honors_zero_timeouts() {
    assert_eq!(drain_timing(0, 100, 100), DrainTiming::GiveUp);
    assert_eq!(drain_timing(50, 100, 100), DrainTiming::Sleep { ms: 10 });
    assert_eq!(drain_timing(50, 100, 145), DrainTiming::Sleep { ms: 5 });
    assert_eq!(drain_timing(50, 100, 150), DrainTiming::GiveUp);
    assert_eq!(drain_timing(50, 100, 500), DrainTiming::GiveUp);
}

#[test]
fn shutdown_escalation_decisions() {
    assert!(tino::supervisor::shutdown_escalates(true, false));
    assert!(!tino::supervisor::shutdown_escalates(true, true));
    assert!(!tino::supervisor::shutdown_escalates(false, false));
    assert!(tino::supervisor::shutdown_warns_remaining(true, false));
    assert!(!tino::supervisor::shutdown_warns_remaining(true, true));
}
