//! Fault records, panic diagnostics, and a bounded diagnostic ring.
//!
//! Fatal invariants may still panic in the final kernel, but this module gives
//! subsystems a typed diagnostic path to use before escalation.
use vstd::prelude::*;

use crate::capability::TaskId;
use crate::error::{KernelError, KernelStatus};
use crate::ring::Sequenced;
use crate::syscall::TraceContext;

verus! {

/// Maximum fault records retained by the host-mode diagnostic ring.
pub const MAX_FAULT_RECORDS: usize = 64;

/// Fault taxonomy for kernel diagnostics.
#[derive(Clone, Copy, Debug, Eq, PartialEq, Structural)]
pub enum FaultKind {
    /// Kernel panic path.
    Panic,
    /// Page or address translation fault.
    PageFault,
    /// Unknown or invalid syscall.
    InvalidSyscall,
    /// Capability or policy denial.
    CapabilityDenied,
    /// Device mediation or driver failure.
    DeviceError,
    /// Nested fatal fault.
    DoubleFault,
    /// Internal invariant violation.
    InvariantViolation,
}

/// Diagnostic severity.
#[derive(Clone, Copy, Debug, Eq, PartialEq, Structural)]
pub enum FaultSeverity {
    /// Informational diagnostic.
    Info,
    /// Recoverable warning.
    Warning,
    /// Recoverable error.
    Error,
    /// Fatal condition.
    Fatal,
}

/// Kernel initialization or runtime phase associated with a fault.
#[derive(Clone, Copy, Debug, Eq, PartialEq, Structural)]
pub enum FaultPhase {
    /// Before boot handoff parsing.
    PreBoot,
    /// During deterministic boot initialization.
    Boot,
    /// During normal task execution.
    Runtime,
    /// During shutdown or panic handling.
    Shutdown,
}

/// One structured diagnostic fault record.
#[derive(Clone, Copy, Debug, Eq, PartialEq)]
pub struct FaultRecord {
    /// Monotonic diagnostic sequence.
    pub sequence: u64,
    /// Fault kind.
    pub kind: FaultKind,
    /// Fault severity.
    pub severity: FaultSeverity,
    /// Task associated with the fault, or zero when not task-specific.
    pub task_id: TaskId,
    /// Address associated with the fault, if any.
    pub address: u64,
    /// Stable status code associated with the fault.
    pub status: KernelStatus,
    /// Kernel phase where the fault occurred.
    pub phase: FaultPhase,
    /// Trace context associated with the fault.
    pub trace: TraceContext,
    /// Stable reason label.
    pub reason: &'static str,
}

impl Sequenced for FaultRecord {
    open spec fn stamped(self, sequence: u64) -> FaultRecord {
        FaultRecord { sequence, ..self }
    }
}

impl FaultRecord {
    /// The record of an error, before it is stamped.
    pub open spec fn spec_from_error(
        kind: FaultKind,
        severity: FaultSeverity,
        task_id: TaskId,
        address: u64,
        error: KernelError,
        phase: FaultPhase,
        trace: TraceContext,
    ) -> FaultRecord {
        FaultRecord {
            sequence: 0,
            kind,
            severity,
            task_id,
            address,
            status: error.spec_status(),
            phase,
            trace,
            reason: error.spec_reason(),
        }
    }

    /// Empty sentinel record for ring initialization.
    pub fn empty() -> (record: Self)
        ensures
            record == (FaultRecord {
                sequence: 0,
                kind: FaultKind::InvariantViolation,
                severity: FaultSeverity::Info,
                task_id: 0,
                address: 0,
                status: KernelStatus::Success,
                phase: FaultPhase::PreBoot,
                trace: TraceContext::spec_empty(),
                reason: "",
            }),
    {
        Self {
            sequence: 0,
            kind: FaultKind::InvariantViolation,
            severity: FaultSeverity::Info,
            task_id: 0,
            address: 0,
            status: KernelStatus::Success,
            phase: FaultPhase::PreBoot,
            trace: TraceContext::empty(),
            reason: "",
        }
    }

    /// Creates a record from a typed kernel error.
    pub fn from_error(
        kind: FaultKind,
        severity: FaultSeverity,
        task_id: TaskId,
        address: u64,
        error: KernelError,
        phase: FaultPhase,
        trace: TraceContext,
    ) -> (record: Self)
        ensures
            record == Self::spec_from_error(kind, severity, task_id, address, error, phase, trace),
    {
        Self {
            sequence: 0,
            kind,
            severity,
            task_id,
            address,
            status: error.status(),
            phase,
            trace,
            reason: error.reason(),
        }
    }
}

/// What a fault reporter holds: the retained records, oldest first, and the
/// sequence number of the next one.
#[verifier::ext_equal]
pub struct FaultState {
    pub records: Seq<FaultRecord>,
    pub next_sequence: u64,
}

impl FaultState {
    /// The history is bounded, and its records carry consecutive sequence
    /// numbers that lead up to the next one, counting around at the end of the
    /// range.
    pub open spec fn valid(self) -> bool {
        &&& self.records.len() <= MAX_FAULT_RECORDS
        &&& forall|i: int|
            0 <= i < self.records.len() ==> (#[trigger] self.records[i]).sequence == (
            self.next_sequence - (self.records.len() - i)) % 0x1_0000_0000_0000_0000
    }

    /// The history after a record is added.
    pub open spec fn recorded(self, record: FaultRecord) -> FaultState {
        FaultState {
            records: crate::ring::bounded_push(
                self.records,
                record.stamped(self.next_sequence),
                MAX_FAULT_RECORDS as nat,
            ),
            next_sequence: if self.next_sequence == u64::MAX {
                0
            } else {
                (self.next_sequence + 1) as u64
            },
        }
    }

    /// The history after a sequence of records is added.
    pub open spec fn recorded_all(self, records: Seq<FaultRecord>) -> FaultState
        decreases records.len(),
    {
        if records.len() == 0 {
            self
        } else {
            self.recorded_all(records.drop_last()).recorded(records.last())
        }
    }
}

/// Bounded fault reporter used before a persistent diagnostic backend exists.
#[derive(Clone, Debug, Eq, PartialEq)]
pub struct FaultReporter {
    records: [FaultRecord; MAX_FAULT_RECORDS],
    cursor: usize,
    count: usize,
    next_sequence: u64,
}

impl View for FaultReporter {
    type V = FaultState;

    closed spec fn view(&self) -> FaultState {
        FaultState {
            records: crate::ring::ring_entries(
                self.records@,
                self.cursor as int,
                self.count as int,
            ),
            next_sequence: self.next_sequence,
        }
    }
}

proof fn lemma_recorded_valid(state: FaultState, record: FaultRecord)
    requires
        state.valid(),
    ensures
        state.recorded(record).valid(),
{
    let after = state.recorded(record);
    let shift = state.records.len() + 1 - after.records.len();
    assert forall|i: int| 0 <= i < after.records.len() implies (
    #[trigger] after.records[i]).sequence == (after.next_sequence - (after.records.len() - i))
        % 0x1_0000_0000_0000_0000 by {
        if i < after.records.len() - 1 {
            assert(after.records[i] == state.records[i + shift]);
        }
    }
}

impl FaultReporter {
    /// The ring positions fit together.
    pub closed spec fn repr_ok(&self) -> bool {
        crate::ring::ring_ok(MAX_FAULT_RECORDS as int, self.cursor as int, self.count as int)
    }

    /// The reporter is in a state its operations can produce.
    pub open spec fn wf(&self) -> bool {
        self.repr_ok() && self@.valid()
    }

    /// The state of an empty reporter.
    pub open spec fn spec_new() -> FaultState {
        FaultState { records: Seq::empty(), next_sequence: 1 }
    }

    /// Creates an empty reporter.
    pub fn new() -> (reporter: Self)
        ensures
            reporter.wf(),
            reporter@ == Self::spec_new(),
    {
        let reporter = Self {
            records: [FaultRecord::empty(); MAX_FAULT_RECORDS],
            cursor: 0,
            count: 0,
            next_sequence: 1,
        };
        assert(reporter@.records =~= Seq::empty());
        reporter
    }

    /// Number of retained fault records.
    pub fn len(&self) -> (len: usize)
        requires
            self.wf(),
        ensures
            len == self@.records.len(),
    {
        self.count
    }

    /// Returns `true` when no faults are retained.
    pub fn is_empty(&self) -> (empty: bool)
        requires
            self.wf(),
        ensures
            empty == (self@.records.len() == 0),
    {
        self.count == 0
    }

    /// Records a fault and assigns a monotonic sequence.
    pub fn record(&mut self, record: FaultRecord)
        requires
            old(self).wf(),
        ensures
            final(self).wf(),
            final(self)@ == old(self)@.recorded(record),
    {
        let mut record = record;
        record.sequence = self.next_sequence;
        proof {
            crate::ring::lemma_ring_push(
                self.records@,
                self.cursor as int,
                self.count as int,
                record,
            );
            lemma_recorded_valid(self@, record);
        }
        self.next_sequence = self.next_sequence.wrapping_add(1);
        self.records[self.cursor] = record;
        self.cursor = (self.cursor + 1) % MAX_FAULT_RECORDS;
        if self.count < MAX_FAULT_RECORDS {
            self.count += 1;
        }
    }

    /// Records a typed error with common fields.
    pub fn record_error(
        &mut self,
        kind: FaultKind,
        severity: FaultSeverity,
        task_id: TaskId,
        error: KernelError,
        phase: FaultPhase,
        trace: TraceContext,
    )
        requires
            old(self).wf(),
        ensures
            final(self).wf(),
            final(self)@ == old(self)@.recorded(
                FaultRecord::spec_from_error(kind, severity, task_id, 0, error, phase, trace),
            ),
    {
        self.record(FaultRecord::from_error(kind, severity, task_id, 0, error, phase, trace));
    }

    /// Returns the most recent fault record.
    pub fn last(&self) -> (record: Option<FaultRecord>)
        requires
            self.wf(),
        ensures
            record == if self@.records.len() == 0 {
                None
            } else {
                Some(self@.records.last())
            },
    {
        if self.count == 0 {
            return None;
        }
        let index: usize = if self.cursor == 0 {
            MAX_FAULT_RECORDS - 1
        } else {
            self.cursor - 1
        };
        Some(self.records[index])
    }

    /// Builds and records a final panic diagnostic.
    pub fn record_panic(
        &mut self,
        task_id: TaskId,
        phase: FaultPhase,
        trace: TraceContext,
        reason: &'static str,
    )
        requires
            old(self).wf(),
        ensures
            final(self).wf(),
            final(self)@ == old(self)@.recorded(
                FaultRecord {
                    sequence: 0,
                    kind: FaultKind::Panic,
                    severity: FaultSeverity::Fatal,
                    task_id,
                    address: 0,
                    status: KernelStatus::Internal,
                    phase,
                    trace,
                    reason,
                },
            ),
    {
        self.record(
            FaultRecord {
                sequence: 0,
                kind: FaultKind::Panic,
                severity: FaultSeverity::Fatal,
                task_id,
                address: 0,
                status: KernelStatus::Internal,
                phase,
                trace,
                reason,
            },
        );
    }
}

impl Default for FaultReporter {
    fn default() -> (reporter: Self)
        ensures
            reporter.wf(),
            reporter@ == Self::spec_new(),
    {
        Self::new()
    }
}

/// The newest retained record is the one added last, with the next sequence
/// number on it; the history never shrinks and loses at most its oldest record.
pub proof fn law_record_keeps_the_newest(state: FaultState, record: FaultRecord)
    requires
        state.valid(),
    ensures
        state.recorded(record).valid(),
        state.next_sequence < u64::MAX ==> state.recorded(record).next_sequence == state.next_sequence
            + 1,
        state.next_sequence == u64::MAX ==> state.recorded(record).next_sequence == 0,
        state.recorded(record).records.last() == record.stamped(state.next_sequence),
        state.recorded(record).records.len() >= state.records.len(),
        state.records.len() < MAX_FAULT_RECORDS ==> state.recorded(record).records.drop_last()
            == state.records,
        state.records.len() == MAX_FAULT_RECORDS ==> state.recorded(record).records.drop_last()
            == state.records.drop_first(),
{
    lemma_recorded_valid(state, record);
    let after = state.recorded(record);
    if state.records.len() < MAX_FAULT_RECORDS {
        assert(after.records.drop_last() =~= state.records);
    } else {
        assert(after.records.drop_last() =~= state.records.drop_first());
    }
}

/// Retained records are in the order of their sequence numbers, one apart, as
/// long as the counter has not gone around.
pub proof fn law_sequences_increase(state: FaultState, i: int, j: int)
    requires
        state.valid(),
        state.records.len() <= state.next_sequence,
        0 <= i <= j < state.records.len(),
    ensures
        state.records[j].sequence - state.records[i].sequence == j - i,
        state.records[j].sequence < state.next_sequence,
{
}

/// After any number of faults the reporter holds exactly the most recent ones,
/// numbered in order.
pub proof fn law_reporter_holds_the_most_recent_faults(
    state: FaultState,
    records: Seq<FaultRecord>,
)
    requires
        state.valid(),
    ensures
        state.recorded_all(records).valid(),
        state.recorded_all(records).next_sequence == crate::ring::sequence_after(
            state.next_sequence,
            records.len(),
        ),
        state.recorded_all(records).records == crate::ring::most_recent(
            state.records,
            records,
            state.next_sequence,
            MAX_FAULT_RECORDS as nat,
        ),
    decreases records.len(),
{
    crate::ring::lemma_most_recent(
        state.records,
        records,
        state.next_sequence,
        MAX_FAULT_RECORDS as nat,
    );
    if records.len() > 0 {
        let before = state.recorded_all(records.drop_last());
        law_reporter_holds_the_most_recent_faults(state, records.drop_last());
        lemma_recorded_valid(before, records.last());
    }
}

/// A fault record says of its error what callers see of it, and keeps what it
/// was made with.
pub proof fn law_records_carry_their_error(
    kind: FaultKind,
    severity: FaultSeverity,
    task_id: TaskId,
    address: u64,
    error: KernelError,
    phase: FaultPhase,
    trace: TraceContext,
)
    ensures
        ({
            let record = FaultRecord::spec_from_error(
                kind,
                severity,
                task_id,
                address,
                error,
                phase,
                trace,
            );
            &&& record.kind == kind
            &&& record.severity == severity
            &&& record.task_id == task_id
            &&& record.address == address
            &&& record.status == error.spec_status()
            &&& record.reason == error.spec_reason()
            &&& record.phase == phase
            &&& record.trace == trace
        }),
{
}

/// Sequence numbers start at one: the first records of a fresh reporter carry
/// one and two. The reporter has room for 64 records and keeps the newest.
pub proof fn law_sequences_start_at_one(first: FaultRecord, second: FaultRecord)
    ensures
        FaultReporter::spec_new().recorded(first).recorded(second).records == seq![
            FaultRecord { sequence: 1, ..first },
            FaultRecord { sequence: 2, ..second },
        ],
        forall|state: FaultState| #[trigger]
            state.recorded(first).records.len() == if state.records.len() < 64 {
                state.records.len() + 1
            } else {
                state.records.len()
            },
{
    assert(FaultReporter::spec_new().recorded(first).recorded(second).records =~= seq![
        FaultRecord { sequence: 1, ..first },
        FaultRecord { sequence: 2, ..second },
    ]);
}

} // verus!
