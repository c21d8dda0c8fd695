//! Structured audit handoff records and an in-memory host-mode audit log.
//!
//! Audit events are structured data with explicit data classification.
//! Security denials and authority changes are never sampled away by this
//! layer.
use vstd::prelude::*;

use crate::capability::TaskId;
use crate::error::KernelStatus;
use crate::ring::Sequenced;
use crate::syscall::{SyscallNumber, TraceContext};

verus! {

/// Maximum audit events retained by the host-mode ring buffer.
pub const MAX_AUDIT_EVENTS: usize = 128;

/// Security and operational audit event taxonomy.
#[derive(Clone, Copy, Debug, Eq, PartialEq, Structural)]
pub enum AuditEventKind {
    /// A task was spawned.
    TaskSpawn,
    /// A task changed lifecycle state.
    TaskStateChanged,
    /// A memory mapping or unmapping was requested.
    MemoryMap,
    /// Shared memory was created or sealed.
    MemoryShare,
    /// A device was opened.
    DeviceOpen,
    /// A device operation was called.
    DeviceCall,
    /// A cognitive inference syscall was mediated.
    CognitionInfer,
    /// Cognitive memory was queried or mutated.
    CognitiveMemory,
    /// A capability was derived or revoked.
    CapabilityChanged,
    /// A security decision was made.
    SecurityDecision,
    /// An audit append operation was requested.
    AuditAppend,
    /// Audit records were queried.
    AuditQuery,
    /// Audit range verification was requested.
    AuditVerify,
    /// A fault or panic diagnostic was emitted.
    Fault,
}

/// Severity assigned to an audit event.
#[derive(Clone, Copy, Debug, Eq, PartialEq, Structural)]
pub enum AuditSeverity {
    /// Informational event.
    Info,
    /// Expected operational state change.
    Notice,
    /// Suspicious or denied action.
    Warning,
    /// Security or integrity relevant failure.
    Critical,
}

/// Data classification for attached diagnostic fields.
#[derive(Clone, Copy, Debug, Eq, PartialEq, Structural)]
pub enum DataClass {
    /// Safe for public release.
    Public,
    /// Operational metadata that should be visible to operators.
    Operational,
    /// Sensitive content that requires policy-controlled redaction.
    Sensitive,
    /// Secret material that must not be exported.
    Secret,
}

/// One structured audit event.
#[derive(Clone, Copy, Debug, Eq, PartialEq)]
pub struct AuditEvent {
    /// Monotonic audit sequence.
    pub sequence: u64,
    /// Event kind.
    pub kind: AuditEventKind,
    /// Event severity.
    pub severity: AuditSeverity,
    /// Task associated with the event, or zero when not task-specific.
    pub task_id: TaskId,
    /// Syscall associated with the event, if any.
    pub syscall: Option<SyscallNumber>,
    /// Result status associated with the event.
    pub status: KernelStatus,
    /// Propagated trace context.
    pub trace: TraceContext,
    /// Classification of attached fields.
    pub data_class: DataClass,
    /// Stable reason label.
    pub reason: &'static str,
}

impl Sequenced for AuditEvent {
    open spec fn stamped(self, sequence: u64) -> AuditEvent {
        AuditEvent { sequence, ..self }
    }
}

impl AuditEvent {
    /// The severity of a syscall outcome: a denial is critical, any other
    /// failure a warning.
    pub open spec fn severity_of(status: KernelStatus) -> AuditSeverity {
        if status == KernelStatus::Success {
            AuditSeverity::Notice
        } else if status == KernelStatus::PermissionDenied {
            AuditSeverity::Critical
        } else {
            AuditSeverity::Warning
        }
    }

    /// The event of a syscall outcome, before it is stamped.
    pub open spec fn spec_of_syscall(
        kind: AuditEventKind,
        task_id: TaskId,
        syscall: SyscallNumber,
        status: KernelStatus,
        trace: TraceContext,
        reason: &'static str,
    ) -> AuditEvent {
        AuditEvent {
            sequence: 0,
            kind,
            severity: AuditEvent::severity_of(status),
            task_id,
            syscall: Some(syscall),
            status,
            trace,
            data_class: DataClass::Operational,
            reason,
        }
    }

    /// Empty event used to initialize the ring buffer.
    pub fn empty() -> (event: Self)
        ensures
            event == (AuditEvent {
                sequence: 0,
                kind: AuditEventKind::SecurityDecision,
                severity: AuditSeverity::Info,
                task_id: 0,
                syscall: None,
                status: KernelStatus::Success,
                trace: TraceContext::spec_empty(),
                data_class: DataClass::Public,
                reason: "",
            }),
    {
        Self {
            sequence: 0,
            kind: AuditEventKind::SecurityDecision,
            severity: AuditSeverity::Info,
            task_id: 0,
            syscall: None,
            status: KernelStatus::Success,
            trace: TraceContext::empty(),
            data_class: DataClass::Public,
            reason: "",
        }
    }
}

/// Sink trait for future audit backends.
pub trait AuditSink {
    /// Whether the backend is in a state that takes events.
    spec fn sink_ready(&self) -> bool;

    /// The events the backend holds, oldest first.
    spec fn sink_events(&self) -> Seq<AuditEvent>;

    /// Appends an event to a backend. The newest event it then holds is that
    /// one, under a sequence number of the backend's own.
    fn append(&mut self, event: AuditEvent)
        requires
            old(self).sink_ready(),
        ensures
            final(self).sink_ready(),
            final(self).sink_events().len() > 0,
            final(self).sink_events().last() == event.stamped(
                final(self).sink_events().last().sequence,
            ),
    ;
}

/// What an audit log holds: the retained events, oldest first, and the
/// sequence number of the next one.
#[verifier::ext_equal]
pub struct AuditState {
    pub events: Seq<AuditEvent>,
    pub next_sequence: u64,
}

impl AuditState {
    /// The log is bounded, and its events carry consecutive sequence numbers
    /// that lead up to the next one, counting around at the end of the range.
    pub open spec fn valid(self) -> bool {
        &&& self.events.len() <= MAX_AUDIT_EVENTS
        &&& forall|i: int|
            0 <= i < self.events.len() ==> (#[trigger] self.events[i]).sequence == (
            self.next_sequence - (self.events.len() - i)) % 0x1_0000_0000_0000_0000
    }

    /// The log after an event is appended.
    pub open spec fn appended(self, event: AuditEvent) -> AuditState {
        AuditState {
            events: crate::ring::bounded_push(
                self.events,
                event.stamped(self.next_sequence),
                MAX_AUDIT_EVENTS as nat,
            ),
            next_sequence: if self.next_sequence == u64::MAX {
                0
            } else {
                (self.next_sequence + 1) as u64
            },
        }
    }

    /// The log after a sequence of events is appended.
    pub open spec fn appended_all(self, events: Seq<AuditEvent>) -> AuditState
        decreases events.len(),
    {
        if events.len() == 0 {
            self
        } else {
            self.appended_all(events.drop_last()).appended(events.last())
        }
    }
}

/// Bounded in-memory audit log used in host-mode tests and dispatch.
#[derive(Clone, Debug, Eq, PartialEq)]
pub struct AuditLog {
    events: [AuditEvent; MAX_AUDIT_EVENTS],
    cursor: usize,
    count: usize,
    next_sequence: u64,
}

impl View for AuditLog {
    type V = AuditState;

    closed spec fn view(&self) -> AuditState {
        AuditState {
            events: crate::ring::ring_entries(self.events@, self.cursor as int, self.count as int),
            next_sequence: self.next_sequence,
        }
    }
}

proof fn lemma_appended_valid(state: AuditState, event: AuditEvent)
    requires
        state.valid(),
    ensures
        state.appended(event).valid(),
{
    let after = state.appended(event);
    let shift = state.events.len() + 1 - after.events.len();
    assert forall|i: int| 0 <= i < after.events.len() implies (#[trigger] after.events[i]).sequence
        == (after.next_sequence - (after.events.len() - i)) % 0x1_0000_0000_0000_0000 by {
        if i < after.events.len() - 1 {
            assert(after.events[i] == state.events[i + shift]);
        }
    }
}

impl AuditLog {
    /// The ring positions fit together.
    pub closed spec fn repr_ok(&self) -> bool {
        crate::ring::ring_ok(MAX_AUDIT_EVENTS as int, self.cursor as int, self.count as int)
    }

    /// The log is in a state its operations can produce.
    pub open spec fn wf(&self) -> bool {
        self.repr_ok() && self@.valid()
    }

    /// The state of an empty log.
    pub open spec fn spec_new() -> AuditState {
        AuditState { events: Seq::empty(), next_sequence: 1 }
    }

    /// Creates an empty audit log.
    pub fn new() -> (log: Self)
        ensures
            log.wf(),
            log@ == Self::spec_new(),
    {
        let log = Self {
            events: [AuditEvent::empty(); MAX_AUDIT_EVENTS],
            cursor: 0,
            count: 0,
            next_sequence: 1,
        };
        assert(log@.events =~= Seq::empty());
        log
    }

    /// Number of retained events.
    pub fn len(&self) -> (len: usize)
        requires
            self.wf(),
        ensures
            len == self@.events.len(),
    {
        self.count
    }

    /// Returns `true` when no events are retained.
    pub fn is_empty(&self) -> (empty: bool)
        requires
            self.wf(),
        ensures
            empty == (self@.events.len() == 0),
    {
        self.count == 0
    }

    /// Appends an event and assigns a monotonic sequence.
    pub fn append(&mut self, event: AuditEvent)
        requires
            old(self).wf(),
        ensures
            final(self).wf(),
            final(self)@ == old(self)@.appended(event),
    {
        let mut event = event;
        event.sequence = self.next_sequence;
        proof {
            crate::ring::lemma_ring_push(
                self.events@,
                self.cursor as int,
                self.count as int,
                event,
            );
            lemma_appended_valid(self@, event);
        }
        self.next_sequence = self.next_sequence.wrapping_add(1);
        self.events[self.cursor] = event;
        self.cursor = (self.cursor + 1) % MAX_AUDIT_EVENTS;
        if self.count < MAX_AUDIT_EVENTS {
            self.count += 1;
        }
    }

    /// Records a syscall outcome using descriptor-provided audit metadata.
    pub fn record_syscall(
        &mut self,
        kind: AuditEventKind,
        task_id: TaskId,
        syscall: SyscallNumber,
        status: KernelStatus,
        trace: TraceContext,
        reason: &'static str,
    )
        requires
            old(self).wf(),
        ensures
            final(self).wf(),
            final(self)@ == old(self)@.appended(
                AuditEvent::spec_of_syscall(kind, task_id, syscall, status, trace, reason),
            ),
    {
        let severity = if status.is_ok() {
            AuditSeverity::Notice
        } else if status == KernelStatus::PermissionDenied {
            AuditSeverity::Critical
        } else {
            AuditSeverity::Warning
        };
        self.append(
            AuditEvent {
                sequence: 0,
                kind,
                severity,
                task_id,
                syscall: Some(syscall),
                status,
                trace,
                data_class: DataClass::Operational,
                reason,
            },
        );
    }

    /// Returns the most recently appended event, if any.
    pub fn last(&self) -> (event: Option<AuditEvent>)
        requires
            self.wf(),
        ensures
            event == if self@.events.len() == 0 {
                None
            } else {
                Some(self@.events.last())
            },
    {
        if self.count == 0 {
            return None;
        }
        let index: usize = if self.cursor == 0 {
            MAX_AUDIT_EVENTS - 1
        } else {
            self.cursor - 1
        };
        Some(self.events[index])
    }

    /// Returns an event by chronological index among retained entries.
    pub fn get(&self, index: usize) -> (event: Option<AuditEvent>)
        requires
            self.wf(),
        ensures
            event == if index < self@.events.len() {
                Some(self@.events[index as int])
            } else {
                None
            },
    {
        if index >= self.count {
            return None;
        }
        let oldest: usize = if self.count == MAX_AUDIT_EVENTS {
            self.cursor
        } else {
            0
        };
        let physical: usize = (oldest + index) % MAX_AUDIT_EVENTS;
        Some(self.events[physical])
    }

    /// Returns the sequence assigned to the next appended event.
    pub fn next_sequence(&self) -> (sequence: u64)
        ensures
            sequence == self@.next_sequence,
    {
        self.next_sequence
    }
}

impl AuditSink for AuditLog {
    open spec fn sink_ready(&self) -> bool {
        self.wf()
    }

    open spec fn sink_events(&self) -> Seq<AuditEvent> {
        self@.events
    }

    fn append(&mut self, event: AuditEvent)
        ensures
            final(self)@ == old(self)@.appended(event),
    {
        AuditLog::append(self, event);
    }
}

impl Default for AuditLog {
    fn default() -> (log: Self)
        ensures
            log.wf(),
            log@ == Self::spec_new(),
    {
        Self::new()
    }
}

/// The newest retained event is the one appended last, with the next sequence
/// number on it; the log never shrinks and loses at most its oldest event.
pub proof fn law_append_keeps_the_newest(state: AuditState, event: AuditEvent)
    requires
        state.valid(),
    ensures
        state.appended(event).valid(),
        state.next_sequence < u64::MAX ==> state.appended(event).next_sequence == state.next_sequence
            + 1,
        state.next_sequence == u64::MAX ==> state.appended(event).next_sequence == 0,
        state.appended(event).events.last() == event.stamped(state.next_sequence),
        state.appended(event).events.len() >= state.events.len(),
        state.events.len() < MAX_AUDIT_EVENTS ==> state.appended(event).events.drop_last()
            == state.events,
        state.events.len() == MAX_AUDIT_EVENTS ==> state.appended(event).events.drop_last()
            == state.events.drop_first(),
{
    lemma_appended_valid(state, event);
    let after = state.appended(event);
    if state.events.len() < MAX_AUDIT_EVENTS {
        assert(after.events.drop_last() =~= state.events);
    } else {
        assert(after.events.drop_last() =~= state.events.drop_first());
    }
}

/// Retained events are in the order of their sequence numbers, one apart, as
/// long as the counter has not gone around.
pub proof fn law_sequences_increase(state: AuditState, i: int, j: int)
    requires
        state.valid(),
        state.events.len() <= state.next_sequence,
        0 <= i <= j < state.events.len(),
    ensures
        state.events[j].sequence - state.events[i].sequence == j - i,
        state.events[j].sequence < state.next_sequence,
{
}

/// After any number of appends the log holds exactly the most recent events,
/// numbered in order.
pub proof fn law_log_holds_the_most_recent_events(state: AuditState, events: Seq<AuditEvent>)
    requires
        state.valid(),
    ensures
        state.appended_all(events).valid(),
        state.appended_all(events).next_sequence == crate::ring::sequence_after(
            state.next_sequence,
            events.len(),
        ),
        state.appended_all(events).events == crate::ring::most_recent(
            state.events,
            events,
            state.next_sequence,
            MAX_AUDIT_EVENTS as nat,
        ),
    decreases events.len(),
{
    crate::ring::lemma_most_recent(
        state.events,
        events,
        state.next_sequence,
        MAX_AUDIT_EVENTS as nat,
    );
    if events.len() > 0 {
        let before = state.appended_all(events.drop_last());
        law_log_holds_the_most_recent_events(state, events.drop_last());
        lemma_appended_valid(before, events.last());
    }
}

/// What a syscall's outcome looks like in the log: a success is a notice,
/// a denial critical and any other failure a warning, and the event carries
/// the call, its caller, its status, its trace and the reason, as operational
/// data.
pub proof fn law_outcomes_are_recorded_as_they_were(
    kind: AuditEventKind,
    task_id: TaskId,
    syscall: SyscallNumber,
    status: KernelStatus,
    trace: TraceContext,
    reason: &'static str,
)
    ensures
        ({
            let event = AuditEvent::spec_of_syscall(kind, task_id, syscall, status, trace, reason);
            &&& event.kind == kind
            &&& event.task_id == task_id
            &&& event.syscall == Some(syscall)
            &&& event.status == status
            &&& event.trace == trace
            &&& event.reason == reason
            &&& event.data_class == DataClass::Operational
            &&& event.severity == AuditSeverity::Notice <==> status == KernelStatus::Success
            &&& event.severity == AuditSeverity::Critical <==> status
                == KernelStatus::PermissionDenied
            &&& event.severity == AuditSeverity::Warning <==> status != KernelStatus::Success
                && status != KernelStatus::PermissionDenied
            &&& event.severity == AuditEvent::severity_of(status)
        }),
{
}

/// Sequence numbers start at one: the first events of a fresh log carry one
/// and two. The log has room for 128 events and keeps the newest.
pub proof fn law_sequences_start_at_one(first: AuditEvent, second: AuditEvent)
    ensures
        AuditLog::spec_new().appended(first).appended(second).events == seq![
            AuditEvent { sequence: 1, ..first },
            AuditEvent { sequence: 2, ..second },
        ],
        forall|state: AuditState| #[trigger]
            state.appended(first).events.len() == if state.events.len() < 128 {
                state.events.len() + 1
            } else {
                state.events.len()
            },
{
    assert(AuditLog::spec_new().appended(first).appended(second).events =~= seq![
        AuditEvent { sequence: 1, ..first },
        AuditEvent { sequence: 2, ..second },
    ]);
}

} // verus!
