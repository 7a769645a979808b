use edge_runtime::events::MemoryLimitDetail;
use edge_runtime::events::ShutdownReason;
use edge_runtime::sandbox::ControllerTrigger;
use edge_runtime::sandbox::SandboxLifecycle;
use edge_runtime::sandbox::SandboxPhase;
use edge_runtime::sandbox::TerminationCause;
use edge_runtime::sandbox::entry_candidates;
use edge_runtime::sandbox::initial_heap_limits;
use edge_runtime::sandbox::near_heap_limit_decision;
use edge_runtime::sandbox::pick_first_existing;
use edge_runtime::sandbox::shutdown_reason_for_trigger;
use edge_runtime::units::mib_to_bytes;

#[test]
fn mib_conversion_exact() {
    assert_eq!(mib_to_bytes(1), 1_048_576);
    assert_eq!(mib_to_bytes(16), 16_777_216);
    assert_eq!(mib_to_bytes(150), 157_286_400);
}

#[test]
fn entry_candidates_in_order() {
    let c = entry_candidates();
    assert_eq!(c, vec!["index.ts", "index.tsx", "index.js", "index.mjs"]);
}

#[test]
fn first_existing_candidate_wins() {
    assert_eq!(pick_first_existing(&vec![false, false, true, true]), Some(2));
    assert_eq!(pick_first_existing(&vec![true, false, false, false]), Some(0));
    assert_eq!(pick_first_existing(&vec![false, false, false, false]), None);
    assert_eq!(pick_first_existing(&vec![]), None);
}

#[test]
fn heap_limits_for_engine_construction() {
    let (initial, max) = initial_heap_limits(150);
    assert_eq!(initial, 1_048_576);
    assert_eq!(max, 157_286_400);
}

#[test]
fn near_limit_cap_is_five_fourths() {
    // A 16 MiB limit: the breach report carries the configured limit and
    // the raised cap is exactly 1.25 times it.
    let d = near_heap_limit_decision(16);
    assert_eq!(d.notify_bytes, 16_777_216);
    assert_eq!(d.new_cap_bytes, 20_971_520);
    assert_eq!(4 * d.new_cap_bytes, 5 * d.notify_bytes);

    // A limit that is not a multiple of four MiB still gets the exact cap.
    let d = near_heap_limit_decision(5);
    assert_eq!(d.notify_bytes, 5_242_880);
    assert_eq!(d.new_cap_bytes, 6_553_600);
}

#[test]
fn triggers_map_to_reasons() {
    assert_eq!(
        shutdown_reason_for_trigger(ControllerTrigger::WallClock),
        ShutdownReason::WallClockTime
    );
    assert_eq!(
        shutdown_reason_for_trigger(ControllerTrigger::MemoryBreach),
        ShutdownReason::Memory(MemoryLimitDetail::V8)
    );
    assert_eq!(shutdown_reason_for_trigger(ControllerTrigger::CpuAlarm), ShutdownReason::CPUTime);
}

#[test]
fn lifecycle_records_first_trigger_only() {
    let mut l = SandboxLifecycle::new();
    assert_eq!(l.phase, SandboxPhase::Constructed);
    l.begin_run();
    assert_eq!(l.phase, SandboxPhase::Running);
    l.observe_trigger(ControllerTrigger::WallClock);
    assert_eq!(l.phase, SandboxPhase::Terminated);
    assert_eq!(l.cause, Some(TerminationCause::Triggered(ControllerTrigger::WallClock)));
    // A later trigger or completion changes nothing.
    l.observe_trigger(ControllerTrigger::MemoryBreach);
    assert_eq!(l.cause, Some(TerminationCause::Triggered(ControllerTrigger::WallClock)));
    l.complete();
    assert_eq!(l.cause, Some(TerminationCause::Triggered(ControllerTrigger::WallClock)));
    assert!(!l.shutdown_sent);
    l.mark_shutdown_sent();
    assert!(l.shutdown_sent);
    assert_eq!(l.phase, SandboxPhase::Terminated);
}

#[test]
fn lifecycle_natural_completion() {
    let mut l = SandboxLifecycle::new();
    l.begin_run();
    l.complete();
    assert_eq!(l.phase, SandboxPhase::Terminated);
    assert_eq!(l.cause, Some(TerminationCause::Completed));
    l.observe_trigger(ControllerTrigger::CpuAlarm);
    assert_eq!(l.cause, Some(TerminationCause::Completed));
    l.mark_shutdown_sent();
    assert!(l.shutdown_sent);
}
