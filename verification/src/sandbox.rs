//! Per-request sandbox: its immutable configuration, the boot-time policy
//! decisions (entry-module candidates, heap limits, the near-heap-limit
//! response), and the lifecycle state machine that the controller and the
//! host thread drive.

use vstd::prelude::*;
use vstd::arithmetic::div_mod::lemma_div_multiples_vanish_fancy;
use std::collections::HashMap;
use crate::events::MemoryLimitDetail;
use crate::events::ShutdownReason;
use crate::units::mib_to_bytes;
use crate::units::spec_mib_to_bytes;

verus! {

/// Immutable per-request sandbox configuration.
pub struct SandboxConfig {
    /// Absolute path of the entry module.
    pub entry_module_path: String,
    /// Heap limit in MiB.
    pub memory_limit_mb: u64,
    /// Wall-clock limit in milliseconds.
    pub worker_timeout_ms: u64,
    /// CPU-time limit in milliseconds, when CPU enforcement is enabled.
    pub cpu_time_limit_ms: Option<u64>,
    /// Disables the module cache when set.
    pub no_module_cache: bool,
    /// Path of the optional import-map document.
    pub import_map_path: Option<String>,
    /// Environment mapping exposed read-only to the sandbox.
    pub env_vars: HashMap<String, String>,
}

/// The ordered list of entry filenames tried under a service directory;
/// the first existing one wins.
pub fn entry_candidates() -> (r: Vec<String>)
    ensures
        r@.len() == 4,
        r@[0]@ == "index.ts"@,
        r@[1]@ == "index.tsx"@,
        r@[2]@ == "index.js"@,
        r@[3]@ == "index.mjs"@,
{
    let mut v: Vec<String> = Vec::new();
    v.push("index.ts".to_owned());
    v.push("index.tsx".to_owned());
    v.push("index.js".to_owned());
    v.push("index.mjs".to_owned());
    v
}

/// Picks the first existing candidate: `exists[i]` says whether candidate
/// `i` is present. Returns the index of the first present candidate, or
/// `None` when none is — the boot then fails.
pub fn pick_first_existing(exists: &Vec<bool>) -> (r: Option<usize>)
    ensures
        match r {
            Some(i) => i < exists@.len() && exists@[i as int] && (forall|j: int|
                0 <= j < i ==> !exists@[j]),
            None => forall|j: int| 0 <= j < exists@.len() ==> !exists@[j],
        },
{
    let mut i: usize = 0;
    while i < exists.len()
        invariant
            0 <= i <= exists@.len(),
            forall|j: int| 0 <= j < i ==> !exists@[j],
        decreases exists@.len() - i,
    {
        if exists[i] {
            return Some(i);
        }
        i = i + 1;
    }
    None
}

/// The heap limits the engine is constructed with: a fixed 1 MiB initial
/// size and the configured limit as the maximum.
pub fn initial_heap_limits(memory_limit_mb: u64) -> (r: (u64, u64))
    requires
        spec_mib_to_bytes(memory_limit_mb) <= u64::MAX,
    ensures
        r.0 == 1048576,
        r.1 == spec_mib_to_bytes(memory_limit_mb),
{
    (mib_to_bytes(1), mib_to_bytes(memory_limit_mb))
}

/// The heap cap installed after the near-limit callback fires: the
/// configured limit plus a deliberate 25% allowance.
pub open spec fn spec_heap_cap_bytes(memory_limit_mb: u64) -> int {
    spec_mib_to_bytes(memory_limit_mb) + spec_mib_to_bytes(memory_limit_mb) / 4
}

/// What the near-heap-limit callback decides: the byte figure pushed onto
/// the memory-breach channel, and the raised cap handed back to the engine.
pub struct NearHeapLimitDecision {
    /// Bytes reported on the memory-breach channel: the configured limit.
    pub notify_bytes: u64,
    /// The raised heap cap: the configured limit plus a 25% allowance,
    /// giving the controller time to terminate cleanly.
    pub new_cap_bytes: u64,
}

/// Decides the near-heap-limit response for a configured limit. The
/// callback itself must stay bounded and non-blocking: it only pushes
/// `notify_bytes` to the breach channel and returns `new_cap_bytes`.
pub fn near_heap_limit_decision(memory_limit_mb: u64) -> (r: NearHeapLimitDecision)
    requires
        spec_heap_cap_bytes(memory_limit_mb) <= u64::MAX,
    ensures
        r.notify_bytes == spec_mib_to_bytes(memory_limit_mb),
        r.new_cap_bytes == spec_heap_cap_bytes(memory_limit_mb),
{
    let limit_bytes = mib_to_bytes(memory_limit_mb);
    NearHeapLimitDecision { notify_bytes: limit_bytes, new_cap_bytes: limit_bytes + limit_bytes / 4 }
}

/// Law: the raised heap cap is exactly ⌈1.25 × the configured limit in
/// bytes⌉ — not higher, not lower. The limit in bytes is a multiple of
/// four, so the ceiling is attained exactly: four times the cap equals
/// five times the limit.
pub proof fn lemma_heap_cap_exact(memory_limit_mb: u64)
    ensures
        4 * spec_heap_cap_bytes(memory_limit_mb) == 5 * spec_mib_to_bytes(memory_limit_mb),
        spec_heap_cap_bytes(memory_limit_mb) == (5 * spec_mib_to_bytes(memory_limit_mb) + 3) / 4,
{
    let mb = memory_limit_mb as int;
    let q = 262144 * mb;
    assert(spec_mib_to_bytes(memory_limit_mb) == 4 * q + 0);
    lemma_div_multiples_vanish_fancy(q, 0, 4);
    assert(spec_mib_to_bytes(memory_limit_mb) / 4 == q);
    assert(5 * spec_mib_to_bytes(memory_limit_mb) + 3 == 4 * (5 * q) + 3);
    lemma_div_multiples_vanish_fancy(5 * q, 3, 4);
}

/// One of the three resource breaches the controller watches for.
#[derive(Debug, Clone, Copy, PartialEq, Eq, Structural)]
pub enum ControllerTrigger {
    /// The wall-clock deadline passed.
    WallClock,
    /// The near-heap-limit callback signalled a memory breach.
    MemoryBreach,
    /// The per-thread CPU-time alarm fired.
    CpuAlarm,
}

/// The shutdown reason reported for a controller trigger.
pub open spec fn spec_shutdown_reason_for_trigger(t: ControllerTrigger) -> ShutdownReason {
    match t {
        ControllerTrigger::WallClock => ShutdownReason::WallClockTime,
        ControllerTrigger::MemoryBreach => ShutdownReason::Memory(MemoryLimitDetail::V8),
        ControllerTrigger::CpuAlarm => ShutdownReason::CPUTime,
    }
}

/// Maps the trigger the controller observed to the shutdown reason its
/// event reports: wall clock, engine-detected memory breach, or CPU time.
pub fn shutdown_reason_for_trigger(t: ControllerTrigger) -> (r: ShutdownReason)
    ensures
        r == spec_shutdown_reason_for_trigger(t),
{
    match t {
        ControllerTrigger::WallClock => ShutdownReason::WallClockTime,
        ControllerTrigger::MemoryBreach => ShutdownReason::Memory(MemoryLimitDetail::V8),
        ControllerTrigger::CpuAlarm => ShutdownReason::CPUTime,
    }
}

/// Why a sandbox left its running phase.
#[derive(Debug, Clone, Copy, PartialEq, Eq, Structural)]
pub enum TerminationCause {
    /// The controller terminated it on a resource breach.
    Triggered(ControllerTrigger),
    /// The entry module's evaluation resolved and the event loop drained.
    Completed,
}

/// The phase of one sandbox, which is pinned to one OS thread and serves
/// exactly one request.
#[derive(Debug, Clone, Copy, PartialEq, Eq, Structural)]
pub enum SandboxPhase {
    /// Engine created, bootstrap executed, controller spawned.
    Constructed,
    /// Entry module loaded; user code is being driven.
    Running,
    /// Engine stopped; the thread joins and all resources are released.
    Terminated,
}

/// The lifecycle record of one sandbox, as the host thread and the
/// controller observe it.
#[derive(Debug, Clone, Copy)]
pub struct SandboxLifecycle {
    pub phase: SandboxPhase,
    /// The first cause that terminated the sandbox, if any.
    pub cause: Option<TerminationCause>,
    /// Whether the one shutdown signal has been sent.
    pub shutdown_sent: bool,
}

impl SandboxLifecycle {
    /// Well-formedness: a cause is recorded exactly in the terminated
    /// phase, and the shutdown signal is only ever sent after termination.
    pub open spec fn wf(self) -> bool {
        &&& (self.cause is Some <==> self.phase is Terminated)
        &&& (self.shutdown_sent ==> self.phase is Terminated)
    }

    /// A freshly constructed sandbox: no cause, nothing sent.
    pub fn new() -> (r: SandboxLifecycle)
        ensures
            r.wf(),
            r.phase is Constructed,
            r.cause is None,
            !r.shutdown_sent,
    {
        SandboxLifecycle {
            phase: SandboxPhase::Constructed,
            cause: None,
            shutdown_sent: false,
        }
    }

    /// The lifecycle after a controller trigger: the sandbox is terminated,
    /// and the recorded cause is the first one only.
    pub open spec fn spec_observe_trigger(self, t: ControllerTrigger) -> SandboxLifecycle {
        SandboxLifecycle {
            phase: SandboxPhase::Terminated,
            cause: if self.cause is Some {
                self.cause
            } else {
                Some(TerminationCause::Triggered(t))
            },
            shutdown_sent: self.shutdown_sent,
        }
    }

    /// The lifecycle after the event loop drained naturally.
    pub open spec fn spec_complete(self) -> SandboxLifecycle {
        SandboxLifecycle {
            phase: SandboxPhase::Terminated,
            cause: if self.cause is Some {
                self.cause
            } else {
                Some(TerminationCause::Completed)
            },
            shutdown_sent: self.shutdown_sent,
        }
    }

    /// The host thread starts driving user code.
    pub fn begin_run(&mut self)
        requires
            old(self).wf(),
            old(self).phase is Constructed,
        ensures
            final(self).wf(),
            final(self).phase is Running,
            final(self).cause == old(self).cause,
            final(self).shutdown_sent == old(self).shutdown_sent,
    {
        self.phase = SandboxPhase::Running;
    }

    /// The controller observed a trigger and invoked the termination
    /// handle. Idempotent: a cause already recorded is never overwritten.
    pub fn observe_trigger(&mut self, t: ControllerTrigger)
        requires
            old(self).wf(),
        ensures
            final(self).wf(),
            *final(self) == old(self).spec_observe_trigger(t),
    {
        if self.cause.is_none() {
            self.cause = Some(TerminationCause::Triggered(t));
        }
        self.phase = SandboxPhase::Terminated;
    }

    /// The event loop drained naturally; idempotent in the same way.
    pub fn complete(&mut self)
        requires
            old(self).wf(),
        ensures
            final(self).wf(),
            *final(self) == old(self).spec_complete(),
    {
        if self.cause.is_none() {
            self.cause = Some(TerminationCause::Completed);
        }
        self.phase = SandboxPhase::Terminated;
    }

    /// Sends the one shutdown signal. The precondition rules a second send
    /// out: the signal is sent exactly once per sandbox, after termination.
    pub fn mark_shutdown_sent(&mut self)
        requires
            old(self).wf(),
            old(self).phase is Terminated,
            !old(self).shutdown_sent,
        ensures
            final(self).wf(),
            final(self).shutdown_sent,
            final(self).phase == old(self).phase,
            final(self).cause == old(self).cause,
    {
        self.shutdown_sent = true;
    }
}

/// Law: the first termination cause is stable. Once any trigger or the
/// natural completion has terminated a sandbox, observing a further
/// trigger or completion changes nothing: the controller records exactly
/// one cause, and its termination action is idempotent.
pub proof fn lemma_termination_cause_stable(
    l: SandboxLifecycle,
    t1: ControllerTrigger,
    t2: ControllerTrigger,
)
    ensures
        l.spec_observe_trigger(t1).spec_observe_trigger(t2) == l.spec_observe_trigger(t1),
        l.spec_complete().spec_observe_trigger(t2) == l.spec_complete(),
        l.spec_observe_trigger(t1).spec_complete() == l.spec_observe_trigger(t1),
        l.spec_complete().spec_complete() == l.spec_complete(),
{
}

/// Law: a well-formed lifecycle that has sent its shutdown signal is
/// terminated and carries exactly one recorded cause — one trigger, or the
/// natural completion.
pub proof fn lemma_shutdown_sent_has_one_cause(l: SandboxLifecycle)
    requires
        l.wf(),
        l.shutdown_sent,
    ensures
        l.phase is Terminated,
        l.cause is Some,
{
}

} // verus!
