use edge_runtime::events::BootEvent;
use edge_runtime::events::EventKind;
use edge_runtime::events::LogEvent;
use edge_runtime::events::LogLevel;
use edge_runtime::events::MemoryLimitDetail;
use edge_runtime::events::ShutdownEvent;
use edge_runtime::events::ShutdownReason;
use edge_runtime::events::UncaughtExceptionEvent;
use edge_runtime::events::WorkerEvents;
use edge_runtime::events::WorkerMemoryUsed;
use edge_runtime::events::event_kind_of_tag;
use edge_runtime::events::event_tag;
use edge_runtime::events::log_level_of_tag;
use edge_runtime::events::log_level_tag;
use edge_runtime::events::memory_limit_detail_of_tag;
use edge_runtime::events::memory_limit_detail_tag;
use edge_runtime::events::shutdown_reason_of_tags;
use edge_runtime::events::shutdown_reason_tags;

fn sample_memory_used() -> WorkerMemoryUsed {
    WorkerMemoryUsed { total: 1000, heap: 800, external: 200, mem_check_captured: false }
}

#[test]
fn with_cpu_time_used_patches_uncaught_exception() {
    let e = WorkerEvents::UncaughtException(UncaughtExceptionEvent {
        exception: "TypeError: boom".to_string(),
        cpu_time_used: 0,
    });
    let patched = e.with_cpu_time_used(42);
    match patched {
        WorkerEvents::UncaughtException(inner) => {
            assert_eq!(inner.cpu_time_used, 42);
            assert_eq!(inner.exception, "TypeError: boom");
        }
        _ => panic!("variant changed"),
    }
}

#[test]
fn with_cpu_time_used_patches_shutdown() {
    let e = WorkerEvents::Shutdown(ShutdownEvent {
        reason: ShutdownReason::WallClockTime,
        cpu_time_used: 7,
        memory_used: sample_memory_used(),
    });
    let patched = e.with_cpu_time_used(99);
    match patched {
        WorkerEvents::Shutdown(inner) => {
            assert_eq!(inner.cpu_time_used, 99);
            assert_eq!(inner.reason, ShutdownReason::WallClockTime);
            assert_eq!(inner.memory_used.total, 1000);
        }
        _ => panic!("variant changed"),
    }
}

#[test]
fn with_cpu_time_used_leaves_boot_untouched() {
    let e = WorkerEvents::Boot(BootEvent { boot_time: 123 });
    let patched = e.with_cpu_time_used(42);
    match patched {
        WorkerEvents::Boot(inner) => assert_eq!(inner.boot_time, 123),
        _ => panic!("variant changed"),
    }
}

#[test]
fn with_cpu_time_used_leaves_log_untouched() {
    let e = WorkerEvents::Log(LogEvent { msg: "hi".to_string(), level: LogLevel::Info });
    let patched = e.with_cpu_time_used(42);
    match patched {
        WorkerEvents::Log(inner) => {
            assert_eq!(inner.msg, "hi");
            assert_eq!(inner.level, LogLevel::Info);
        }
        _ => panic!("variant changed"),
    }
}

#[test]
fn event_tags_are_snake_case() {
    assert_eq!(event_tag(EventKind::Boot), "boot");
    assert_eq!(event_tag(EventKind::BootFailure), "boot_failure");
    assert_eq!(event_tag(EventKind::UncaughtException), "uncaught_exception");
    assert_eq!(event_tag(EventKind::Shutdown), "shutdown");
    assert_eq!(event_tag(EventKind::EventLoopCompleted), "event_loop_completed");
    assert_eq!(event_tag(EventKind::Log), "log");
}

#[test]
fn event_kind_round_trips_through_tag() {
    let kinds = [
        EventKind::Boot,
        EventKind::BootFailure,
        EventKind::UncaughtException,
        EventKind::Shutdown,
        EventKind::EventLoopCompleted,
        EventKind::Log,
    ];
    for k in kinds {
        let tag = event_tag(k);
        assert_eq!(event_kind_of_tag(&tag), Some(k));
    }
}

#[test]
fn unknown_event_tag_decodes_to_none() {
    assert_eq!(event_kind_of_tag("reboot"), None);
    assert_eq!(event_kind_of_tag(""), None);
    assert_eq!(event_kind_of_tag("Boot"), None);
}

#[test]
fn event_kind_of_worker_event() {
    let e = WorkerEvents::Boot(BootEvent { boot_time: 1 });
    assert_eq!(e.event_kind(), EventKind::Boot);
    let e = WorkerEvents::Shutdown(ShutdownEvent {
        reason: ShutdownReason::CPUTime,
        cpu_time_used: 0,
        memory_used: sample_memory_used(),
    });
    assert_eq!(e.event_kind(), EventKind::Shutdown);
}

#[test]
fn log_level_round_trips_through_tag() {
    let levels = [LogLevel::Debug, LogLevel::Info, LogLevel::Warning, LogLevel::Error];
    for l in levels {
        let tag = log_level_tag(l);
        assert_eq!(log_level_of_tag(&tag), Some(l));
    }
    assert_eq!(log_level_tag(LogLevel::Warning), "warning");
    assert_eq!(log_level_of_tag("fatal"), None);
}

#[test]
fn memory_limit_detail_round_trips_through_tag() {
    assert_eq!(memory_limit_detail_tag(MemoryLimitDetail::MemCheck), "mem_check");
    assert_eq!(memory_limit_detail_tag(MemoryLimitDetail::V8), "v8");
    assert_eq!(memory_limit_detail_of_tag("mem_check"), Some(MemoryLimitDetail::MemCheck));
    assert_eq!(memory_limit_detail_of_tag("v8"), Some(MemoryLimitDetail::V8));
    assert_eq!(memory_limit_detail_of_tag("v9"), None);
}

#[test]
fn shutdown_reason_round_trips_through_tags() {
    let reasons = [
        ShutdownReason::WallClockTime,
        ShutdownReason::CPUTime,
        ShutdownReason::Memory(MemoryLimitDetail::MemCheck),
        ShutdownReason::Memory(MemoryLimitDetail::V8),
        ShutdownReason::EarlyDrop,
        ShutdownReason::TerminationRequested,
    ];
    for r in reasons {
        let (tag, detail) = shutdown_reason_tags(r);
        let decoded = shutdown_reason_of_tags(&tag, detail.as_deref());
        assert_eq!(decoded, Some(r));
    }
}

#[test]
fn shutdown_reason_tags_exact() {
    let (tag, detail) = shutdown_reason_tags(ShutdownReason::WallClockTime);
    assert_eq!(tag, "wall_clock_time");
    assert_eq!(detail, None);
    let (tag, detail) = shutdown_reason_tags(ShutdownReason::Memory(MemoryLimitDetail::V8));
    assert_eq!(tag, "memory");
    assert_eq!(detail, Some("v8".to_string()));
}

#[test]
fn memory_tag_without_detail_decodes_to_none() {
    assert_eq!(shutdown_reason_of_tags("memory", None), None);
    assert_eq!(shutdown_reason_of_tags("wall_clock_time", Some("v8")), None);
    assert_eq!(shutdown_reason_of_tags("memory", Some("swap")), None);
}
