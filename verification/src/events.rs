//! Typed event records produced by sandboxes and surfaced to the supervisor,
//! together with the tag codec used by the telemetry envelope.
//!
//! Events are serialized as tagged records whose discriminators are
//! snake_case labels; the codec here fixes those labels and proves that every
//! discriminator round-trips through encode and decode.

use vstd::prelude::*;

verus! {

/// Emitted once a sandbox has booted successfully.
#[derive(Debug)]
pub struct BootEvent {
    pub boot_time: usize,
}

/// Emitted when a sandbox could not be constructed or bootstrapped.
#[derive(Debug)]
pub struct BootFailureEvent {
    pub msg: String,
}

/// Memory accounting snapshot taken when a sandbox shuts down.
#[derive(Debug)]
pub struct WorkerMemoryUsed {
    pub total: usize,
    pub heap: usize,
    pub external: usize,
    pub mem_check_captured: bool,
}

/// Which memory accounting detected the breach.
#[derive(Debug, Clone, Copy, PartialEq, Eq, Structural)]
pub enum MemoryLimitDetail {
    MemCheck,
    V8,
}

/// Why a sandbox was shut down.
#[derive(Debug, Clone, Copy, PartialEq, Eq, Structural)]
pub enum ShutdownReason {
    WallClockTime,
    CPUTime,
    Memory(MemoryLimitDetail),
    EarlyDrop,
    TerminationRequested,
}

/// Emitted when the controller shuts a sandbox down.
#[derive(Debug)]
pub struct ShutdownEvent {
    pub reason: ShutdownReason,
    pub cpu_time_used: usize,
    pub memory_used: WorkerMemoryUsed,
}

/// Emitted when user code raised an exception that nothing caught.
#[derive(Debug, Clone)]
pub struct UncaughtExceptionEvent {
    pub exception: String,
    pub cpu_time_used: usize,
}

/// Emitted when the sandbox's event loop drained naturally.
#[derive(Debug)]
pub struct EventLoopCompletedEvent {
    pub cpu_time_used: usize,
}

/// A log line forwarded out of a sandbox.
#[derive(Debug)]
pub struct LogEvent {
    pub msg: String,
    pub level: LogLevel,
}

/// Severity of a forwarded log line.
#[derive(Debug, Clone, Copy, PartialEq, Eq, Structural)]
pub enum LogLevel {
    Debug,
    Info,
    Warning,
    Error,
}

/// The tagged event record reported for a sandbox.
#[derive(Debug)]
pub enum WorkerEvents {
    Boot(BootEvent),
    BootFailure(BootFailureEvent),
    UncaughtException(UncaughtExceptionEvent),
    Shutdown(ShutdownEvent),
    EventLoopCompleted(EventLoopCompletedEvent),
    Log(LogEvent),
}

/// The discriminator of a `WorkerEvents` record: which variant it is,
/// with the payload forgotten.
#[derive(Debug, Clone, Copy, PartialEq, Eq, Structural)]
pub enum EventKind {
    Boot,
    BootFailure,
    UncaughtException,
    Shutdown,
    EventLoopCompleted,
    Log,
}

impl WorkerEvents {
    /// The discriminator of this event.
    pub open spec fn kind(self) -> EventKind {
        match self {
            WorkerEvents::Boot(_) => EventKind::Boot,
            WorkerEvents::BootFailure(_) => EventKind::BootFailure,
            WorkerEvents::UncaughtException(_) => EventKind::UncaughtException,
            WorkerEvents::Shutdown(_) => EventKind::Shutdown,
            WorkerEvents::EventLoopCompleted(_) => EventKind::EventLoopCompleted,
            WorkerEvents::Log(_) => EventKind::Log,
        }
    }

    /// Returns the discriminator of this event.
    pub fn event_kind(&self) -> (k: EventKind)
        ensures
            k == self.kind(),
    {
        match self {
            WorkerEvents::Boot(_) => EventKind::Boot,
            WorkerEvents::BootFailure(_) => EventKind::BootFailure,
            WorkerEvents::UncaughtException(_) => EventKind::UncaughtException,
            WorkerEvents::Shutdown(_) => EventKind::Shutdown,
            WorkerEvents::EventLoopCompleted(_) => EventKind::EventLoopCompleted,
            WorkerEvents::Log(_) => EventKind::Log,
        }
    }

    /// What `with_cpu_time_used` returns: the CPU time is back-patched into
    /// the variants that carry one, and every other variant is left untouched.
    pub open spec fn spec_with_cpu_time_used(self, cpu_time_used_ms: usize) -> WorkerEvents {
        match self {
            WorkerEvents::UncaughtException(e) => WorkerEvents::UncaughtException(
                UncaughtExceptionEvent { exception: e.exception, cpu_time_used: cpu_time_used_ms },
            ),
            WorkerEvents::Shutdown(e) => WorkerEvents::Shutdown(
                ShutdownEvent {
                    reason: e.reason,
                    cpu_time_used: cpu_time_used_ms,
                    memory_used: e.memory_used,
                },
            ),
            _ => self,
        }
    }

    /// Back-patches the measured CPU time into an `UncaughtException` or
    /// `Shutdown` record at send time; any other variant is returned as is.
    pub fn with_cpu_time_used(self, cpu_time_used_ms: usize) -> (r: WorkerEvents)
        ensures
            r == self.spec_with_cpu_time_used(cpu_time_used_ms),
    {
        match self {
            WorkerEvents::UncaughtException(e) => WorkerEvents::UncaughtException(
                UncaughtExceptionEvent { exception: e.exception, cpu_time_used: cpu_time_used_ms },
            ),
            WorkerEvents::Shutdown(e) => WorkerEvents::Shutdown(
                ShutdownEvent {
                    reason: e.reason,
                    cpu_time_used: cpu_time_used_ms,
                    memory_used: e.memory_used,
                },
            ),
            other => other,
        }
    }
}

/// Routing metadata attached to every reported event.
#[derive(Debug, Clone)]
pub struct EventMetadata {
    pub service_path: Option<String>,
    /// The 128-bit value of the execution identifier, if one was assigned.
    pub execution_id: Option<u128>,
}

impl Default for EventMetadata {
    /// Metadata with no service path and no execution identifier.
    fn default() -> (r: Self)
        ensures
            r.service_path is None,
            r.execution_id is None,
    {
        EventMetadata { service_path: None, execution_id: None }
    }
}

/// An event paired with its routing metadata.
#[derive(Debug)]
pub struct WorkerEventWithMetadata {
    pub event: WorkerEvents,
    pub metadata: EventMetadata,
}

/// The transport envelope: either one event record, or the end marker that
/// closes the downstream reader.
pub enum RawEvent {
    Event(Box<WorkerEventWithMetadata>),
    Done,
}

/// An inbound control message received from the event transport.
#[derive(Clone)]
pub struct IncomingEvent {
    pub event_type: Option<String>,
    pub data: Option<Vec<u8>>,
    pub done: bool,
}

/// Compares two string slices by their character sequences.
fn str_eq(a: &str, b: &str) -> (r: bool)
    ensures
        r == (a@ == b@),
{
    let oa: String = a.to_owned();
    let ob: String = b.to_owned();
    oa == ob
}

/// The snake_case label that encodes an event discriminator.
pub open spec fn spec_event_tag(k: EventKind) -> Seq<char> {
    match k {
        EventKind::Boot => "boot"@,
        EventKind::BootFailure => "boot_failure"@,
        EventKind::UncaughtException => "uncaught_exception"@,
        EventKind::Shutdown => "shutdown"@,
        EventKind::EventLoopCompleted => "event_loop_completed"@,
        EventKind::Log => "log"@,
    }
}

/// The event discriminator a label decodes to, if any.
pub open spec fn spec_event_kind_of_tag(s: Seq<char>) -> Option<EventKind> {
    if s == "boot"@ {
        Some(EventKind::Boot)
    } else if s == "boot_failure"@ {
        Some(EventKind::BootFailure)
    } else if s == "uncaught_exception"@ {
        Some(EventKind::UncaughtException)
    } else if s == "shutdown"@ {
        Some(EventKind::Shutdown)
    } else if s == "event_loop_completed"@ {
        Some(EventKind::EventLoopCompleted)
    } else if s == "log"@ {
        Some(EventKind::Log)
    } else {
        None
    }
}

/// Encodes an event discriminator as its snake_case label.
pub fn event_tag(k: EventKind) -> (r: String)
    ensures
        r@ == spec_event_tag(k),
{
    match k {
        EventKind::Boot => "boot".to_owned(),
        EventKind::BootFailure => "boot_failure".to_owned(),
        EventKind::UncaughtException => "uncaught_exception".to_owned(),
        EventKind::Shutdown => "shutdown".to_owned(),
        EventKind::EventLoopCompleted => "event_loop_completed".to_owned(),
        EventKind::Log => "log".to_owned(),
    }
}

/// Decodes a snake_case label back to an event discriminator.
pub fn event_kind_of_tag(s: &str) -> (r: Option<EventKind>)
    ensures
        r == spec_event_kind_of_tag(s@),
{
    if str_eq(s, "boot") {
        Some(EventKind::Boot)
    } else if str_eq(s, "boot_failure") {
        Some(EventKind::BootFailure)
    } else if str_eq(s, "uncaught_exception") {
        Some(EventKind::UncaughtException)
    } else if str_eq(s, "shutdown") {
        Some(EventKind::Shutdown)
    } else if str_eq(s, "event_loop_completed") {
        Some(EventKind::EventLoopCompleted)
    } else if str_eq(s, "log") {
        Some(EventKind::Log)
    } else {
        None
    }
}

/// Law: every event discriminator round-trips through its snake_case label:
/// decoding the label of a discriminator yields that same discriminator.
pub proof fn lemma_event_tag_round_trip(k: EventKind)
    ensures
        spec_event_kind_of_tag(spec_event_tag(k)) == Some(k),
{
    reveal_strlit("boot");
    reveal_strlit("boot_failure");
    reveal_strlit("uncaught_exception");
    reveal_strlit("shutdown");
    reveal_strlit("event_loop_completed");
    reveal_strlit("log");
    assert(("boot"@).len() == 4);
    assert(("boot_failure"@).len() == 12);
    assert(("uncaught_exception"@).len() == 18);
    assert(("shutdown"@).len() == 8);
    assert(("event_loop_completed"@).len() == 20);
    assert(("log"@).len() == 3);
}

/// The snake_case label that encodes a log level.
pub open spec fn spec_log_level_tag(l: LogLevel) -> Seq<char> {
    match l {
        LogLevel::Debug => "debug"@,
        LogLevel::Info => "info"@,
        LogLevel::Warning => "warning"@,
        LogLevel::Error => "error"@,
    }
}

/// The log level a label decodes to, if any.
pub open spec fn spec_log_level_of_tag(s: Seq<char>) -> Option<LogLevel> {
    if s == "debug"@ {
        Some(LogLevel::Debug)
    } else if s == "info"@ {
        Some(LogLevel::Info)
    } else if s == "warning"@ {
        Some(LogLevel::Warning)
    } else if s == "error"@ {
        Some(LogLevel::Error)
    } else {
        None
    }
}

/// Encodes a log level as its snake_case label.
pub fn log_level_tag(l: LogLevel) -> (r: String)
    ensures
        r@ == spec_log_level_tag(l),
{
    match l {
        LogLevel::Debug => "debug".to_owned(),
        LogLevel::Info => "info".to_owned(),
        LogLevel::Warning => "warning".to_owned(),
        LogLevel::Error => "error".to_owned(),
    }
}

/// Decodes a snake_case label back to a log level.
pub fn log_level_of_tag(s: &str) -> (r: Option<LogLevel>)
    ensures
        r == spec_log_level_of_tag(s@),
{
    if str_eq(s, "debug") {
        Some(LogLevel::Debug)
    } else if str_eq(s, "info") {
        Some(LogLevel::Info)
    } else if str_eq(s, "warning") {
        Some(LogLevel::Warning)
    } else if str_eq(s, "error") {
        Some(LogLevel::Error)
    } else {
        None
    }
}

/// Law: every log level round-trips through its snake_case label.
pub proof fn lemma_log_level_tag_round_trip(l: LogLevel)
    ensures
        spec_log_level_of_tag(spec_log_level_tag(l)) == Some(l),
{
    reveal_strlit("debug");
    reveal_strlit("info");
    reveal_strlit("warning");
    reveal_strlit("error");
    assert(("debug"@).len() == 5);
    assert(("info"@).len() == 4);
    assert(("warning"@).len() == 7);
    assert(("error"@).len() == 5);
    assert(("debug"@)[0] == 'd');
    assert(("error"@)[0] == 'e');
}

/// The snake_case label under the `limited_by` discriminator field.
pub open spec fn spec_memory_limit_detail_tag(d: MemoryLimitDetail) -> Seq<char> {
    match d {
        MemoryLimitDetail::MemCheck => "mem_check"@,
        MemoryLimitDetail::V8 => "v8"@,
    }
}

/// The memory-limit detail a `limited_by` label decodes to, if any.
pub open spec fn spec_memory_limit_detail_of_tag(s: Seq<char>) -> Option<MemoryLimitDetail> {
    if s == "mem_check"@ {
        Some(MemoryLimitDetail::MemCheck)
    } else if s == "v8"@ {
        Some(MemoryLimitDetail::V8)
    } else {
        None
    }
}

/// Encodes a memory-limit detail as its `limited_by` label.
pub fn memory_limit_detail_tag(d: MemoryLimitDetail) -> (r: String)
    ensures
        r@ == spec_memory_limit_detail_tag(d),
{
    match d {
        MemoryLimitDetail::MemCheck => "mem_check".to_owned(),
        MemoryLimitDetail::V8 => "v8".to_owned(),
    }
}

/// Decodes a `limited_by` label back to a memory-limit detail.
pub fn memory_limit_detail_of_tag(s: &str) -> (r: Option<MemoryLimitDetail>)
    ensures
        r == spec_memory_limit_detail_of_tag(s@),
{
    if str_eq(s, "mem_check") {
        Some(MemoryLimitDetail::MemCheck)
    } else if str_eq(s, "v8") {
        Some(MemoryLimitDetail::V8)
    } else {
        None
    }
}

/// Law: every memory-limit detail round-trips through its `limited_by` label.
pub proof fn lemma_memory_limit_detail_tag_round_trip(d: MemoryLimitDetail)
    ensures
        spec_memory_limit_detail_of_tag(spec_memory_limit_detail_tag(d)) == Some(d),
{
    reveal_strlit("mem_check");
    reveal_strlit("v8");
    assert(("mem_check"@).len() == 9);
    assert(("v8"@).len() == 2);
}

/// The snake_case labels that encode a shutdown reason: the outer label,
/// and for a memory breach the `limited_by` detail label.
pub open spec fn spec_shutdown_reason_tags(r: ShutdownReason) -> (Seq<char>, Option<Seq<char>>) {
    match r {
        ShutdownReason::WallClockTime => ("wall_clock_time"@, None),
        ShutdownReason::CPUTime => ("cpu_time"@, None),
        ShutdownReason::Memory(d) => ("memory"@, Some(spec_memory_limit_detail_tag(d))),
        ShutdownReason::EarlyDrop => ("early_drop"@, None),
        ShutdownReason::TerminationRequested => ("termination_requested"@, None),
    }
}

/// The shutdown reason a pair of labels decodes to, if any.
pub open spec fn spec_shutdown_reason_of_tags(s: Seq<char>, detail: Option<Seq<char>>) -> Option<
    ShutdownReason,
> {
    if s == "wall_clock_time"@ && detail is None {
        Some(ShutdownReason::WallClockTime)
    } else if s == "cpu_time"@ && detail is None {
        Some(ShutdownReason::CPUTime)
    } else if s == "memory"@ && detail is Some {
        match spec_memory_limit_detail_of_tag(detail->Some_0) {
            Some(d) => Some(ShutdownReason::Memory(d)),
            None => None,
        }
    } else if s == "early_drop"@ && detail is None {
        Some(ShutdownReason::EarlyDrop)
    } else if s == "termination_requested"@ && detail is None {
        Some(ShutdownReason::TerminationRequested)
    } else {
        None
    }
}

/// Encodes a shutdown reason as its outer label and, for a memory breach,
/// the `limited_by` detail label.
pub fn shutdown_reason_tags(r: ShutdownReason) -> (t: (String, Option<String>))
    ensures
        t.0@ == spec_shutdown_reason_tags(r).0,
        t.1 is Some <==> spec_shutdown_reason_tags(r).1 is Some,
        t.1 matches Some(d) ==> spec_shutdown_reason_tags(r).1 matches Some(sd) && d@ == sd,
{
    match r {
        ShutdownReason::WallClockTime => ("wall_clock_time".to_owned(), None),
        ShutdownReason::CPUTime => ("cpu_time".to_owned(), None),
        ShutdownReason::Memory(d) => ("memory".to_owned(), Some(memory_limit_detail_tag(d))),
        ShutdownReason::EarlyDrop => ("early_drop".to_owned(), None),
        ShutdownReason::TerminationRequested => ("termination_requested".to_owned(), None),
    }
}

/// Decodes an outer label and optional `limited_by` label back to a
/// shutdown reason.
pub fn shutdown_reason_of_tags(s: &str, detail: Option<&str>) -> (r: Option<ShutdownReason>)
    ensures
        r == spec_shutdown_reason_of_tags(
            s@,
            match detail {
                Some(d) => Some(d@),
                None => None::<Seq<char>>,
            },
        ),
{
    let detail_present = detail.is_some();
    if str_eq(s, "wall_clock_time") && !detail_present {
        Some(ShutdownReason::WallClockTime)
    } else if str_eq(s, "cpu_time") && !detail_present {
        Some(ShutdownReason::CPUTime)
    } else if str_eq(s, "memory") && detail_present {
        match memory_limit_detail_of_tag(detail.unwrap()) {
            Some(d) => Some(ShutdownReason::Memory(d)),
            None => None,
        }
    } else if str_eq(s, "early_drop") && !detail_present {
        Some(ShutdownReason::EarlyDrop)
    } else if str_eq(s, "termination_requested") && !detail_present {
        Some(ShutdownReason::TerminationRequested)
    } else {
        None
    }
}

/// Law: every shutdown reason round-trips through its labels, the
/// `limited_by` detail included.
pub proof fn lemma_shutdown_reason_tags_round_trip(r: ShutdownReason)
    ensures
        spec_shutdown_reason_of_tags(
            spec_shutdown_reason_tags(r).0,
            spec_shutdown_reason_tags(r).1,
        ) == Some(r),
{
    reveal_strlit("wall_clock_time");
    reveal_strlit("cpu_time");
    reveal_strlit("memory");
    reveal_strlit("early_drop");
    reveal_strlit("termination_requested");
    assert(("wall_clock_time"@).len() == 15);
    assert(("cpu_time"@).len() == 8);
    assert(("memory"@).len() == 6);
    assert(("early_drop"@).len() == 10);
    assert(("termination_requested"@).len() == 21);
    if let ShutdownReason::Memory(d) = r {
        lemma_memory_limit_detail_tag_round_trip(d);
    }
}

} // verus!
