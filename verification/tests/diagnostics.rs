use alani_kernel::audit::{
    AuditEvent, AuditEventKind, AuditLog, AuditSeverity, AuditSink, DataClass, MAX_AUDIT_EVENTS,
};
use alani_kernel::boot::{BootPhase, BootProgress, BOOT_PHASE_COUNT, BOOT_SEQUENCE};
use alani_kernel::error::{KernelError, KernelStatus};
use alani_kernel::fault::{
    FaultKind, FaultPhase, FaultRecord, FaultReporter, FaultSeverity, MAX_FAULT_RECORDS,
};
use alani_kernel::syscall::{SyscallNumber, TraceContext};

#[test]
fn status_codes_are_stable() {
    let table = [
        (KernelStatus::Success, 0),
        (KernelStatus::InvalidArgument, 1),
        (KernelStatus::PermissionDenied, 2),
        (KernelStatus::NotFound, 3),
        (KernelStatus::Busy, 4),
        (KernelStatus::DeadlineExceeded, 5),
        (KernelStatus::Internal, 0xffff_ffff),
    ];
    for (status, code) in table {
        assert_eq!(status.code(), code);
        assert_eq!(status.is_ok(), code == 0);
    }
}

#[test]
fn errors_map_to_statuses_and_reasons() {
    let table = [
        (KernelError::UnknownSyscall, KernelStatus::InvalidArgument, "unknown_syscall"),
        (KernelError::InvalidArgument, KernelStatus::InvalidArgument, "invalid_argument"),
        (KernelError::InvalidUserBuffer, KernelStatus::InvalidArgument, "invalid_user_buffer"),
        (KernelError::BufferTooLarge, KernelStatus::InvalidArgument, "buffer_too_large"),
        (KernelError::BufferOutOfRange, KernelStatus::InvalidArgument, "buffer_out_of_range"),
        (KernelError::ReservedBits, KernelStatus::InvalidArgument, "reserved_bits"),
        (KernelError::MissingCapability, KernelStatus::PermissionDenied, "missing_capability"),
        (KernelError::PermissionDenied, KernelStatus::PermissionDenied, "permission_denied"),
        (KernelError::NotFound, KernelStatus::NotFound, "not_found"),
        (KernelError::CapacityExceeded, KernelStatus::Busy, "capacity_exceeded"),
        (KernelError::Busy, KernelStatus::Busy, "busy"),
        (KernelError::DeadlineExceeded, KernelStatus::DeadlineExceeded, "deadline_exceeded"),
        (KernelError::InvalidState, KernelStatus::InvalidArgument, "invalid_state"),
        (KernelError::Overlap, KernelStatus::InvalidArgument, "overlap"),
        (KernelError::Sealed, KernelStatus::InvalidArgument, "sealed"),
        (KernelError::Duplicate, KernelStatus::InvalidArgument, "duplicate"),
        (KernelError::Internal, KernelStatus::Internal, "internal"),
    ];
    for (error, status, reason) in table {
        assert_eq!(error.status(), status);
        assert_eq!(error.reason(), reason);
        assert_eq!(KernelStatus::from(error), status);
    }
}

#[test]
fn boot_phases_complete_in_order_only() {
    let mut progress = BootProgress::new();
    assert_eq!(progress.next_expected(), Some(BootPhase::LoaderHandoff));
    assert_eq!(
        progress.complete(BootPhase::Allocator),
        Err(KernelError::InvalidState)
    );
    assert_eq!(progress.completed_count(), 0);
    for (index, phase) in BOOT_SEQUENCE.iter().enumerate() {
        assert!(!progress.is_complete());
        assert_eq!(progress.completed_count(), index);
        assert_eq!(progress.next_expected(), Some(*phase));
        assert_eq!(progress.complete(*phase), Ok(()));
    }
    assert!(progress.is_complete());
    assert_eq!(progress.completed_count(), BOOT_PHASE_COUNT);
    assert_eq!(progress.next_expected(), None);
    assert_eq!(
        progress.complete(BootPhase::LoaderHandoff),
        Err(KernelError::InvalidState)
    );
}

fn event(task_id: u64) -> AuditEvent {
    AuditEvent { task_id, ..AuditEvent::empty() }
}

#[test]
fn log_numbers_events_and_keeps_the_newest() {
    let mut log = AuditLog::new();
    assert!(log.is_empty());
    assert_eq!(log.last(), None);
    let first = log.next_sequence();
    let total = MAX_AUDIT_EVENTS as u64 + 5;
    for task_id in 0..total {
        log.append(event(task_id));
    }
    assert_eq!(log.len(), MAX_AUDIT_EVENTS);
    assert_eq!(log.next_sequence(), first + total);
    assert_eq!(log.last().unwrap().task_id, total - 1);
    assert_eq!(log.last().unwrap().sequence, first + total - 1);
    for index in 0..MAX_AUDIT_EVENTS {
        let kept = log.get(index).unwrap();
        assert_eq!(kept.task_id, index as u64 + 5);
        assert_eq!(kept.sequence, first + index as u64 + 5);
    }
    assert_eq!(log.get(MAX_AUDIT_EVENTS), None);
}

#[test]
fn syscall_outcomes_set_the_severity() {
    let mut log = AuditLog::new();
    let trace = TraceContext::empty();
    let outcomes = [
        (KernelStatus::Success, AuditSeverity::Notice),
        (KernelStatus::PermissionDenied, AuditSeverity::Critical),
        (KernelStatus::NotFound, AuditSeverity::Warning),
    ];
    for (status, severity) in outcomes {
        log.record_syscall(
            AuditEventKind::TaskSpawn,
            4,
            SyscallNumber::SysTaskSpawn,
            status,
            trace,
            "why",
        );
        let last = log.last().unwrap();
        assert_eq!(last.severity, severity);
        assert_eq!(last.status, status);
        assert_eq!(last.kind, AuditEventKind::TaskSpawn);
        assert_eq!(last.task_id, 4);
        assert_eq!(last.syscall, Some(SyscallNumber::SysTaskSpawn));
        assert_eq!(last.data_class, DataClass::Operational);
        assert_eq!(last.reason, "why");
    }
}

#[test]
fn log_is_an_audit_sink() {
    let mut log = AuditLog::default();
    AuditSink::append(&mut log, event(3));
    assert_eq!(log.len(), 1);
    assert_eq!(log.last().unwrap().task_id, 3);
}

#[test]
fn reporter_numbers_faults_and_keeps_the_newest() {
    let mut reporter = FaultReporter::new();
    assert!(reporter.is_empty());
    assert_eq!(reporter.last(), None);
    for task_id in 0..MAX_FAULT_RECORDS as u64 + 3 {
        reporter.record(FaultRecord { task_id, ..FaultRecord::empty() });
    }
    assert_eq!(reporter.len(), MAX_FAULT_RECORDS);
    let last = reporter.last().unwrap();
    assert_eq!(last.task_id, MAX_FAULT_RECORDS as u64 + 2);
}

#[test]
fn fault_records_carry_their_error() {
    let mut reporter = FaultReporter::new();
    let trace = TraceContext::empty();
    let record = FaultRecord::from_error(
        FaultKind::PageFault,
        FaultSeverity::Error,
        2,
        0xdead,
        KernelError::BufferOutOfRange,
        FaultPhase::Runtime,
        trace,
    );
    assert_eq!(record.status, KernelStatus::InvalidArgument);
    assert_eq!(record.reason, "buffer_out_of_range");
    assert_eq!(record.address, 0xdead);
    reporter.record_error(
        FaultKind::DeviceError,
        FaultSeverity::Warning,
        6,
        KernelError::Busy,
        FaultPhase::Boot,
        trace,
    );
    let last = reporter.last().unwrap();
    assert_eq!((last.kind, last.severity), (FaultKind::DeviceError, FaultSeverity::Warning));
    assert_eq!((last.task_id, last.address, last.phase), (6, 0, FaultPhase::Boot));
    assert_eq!((last.status, last.reason), (KernelStatus::Busy, "busy"));
}

#[test]
fn panics_are_fatal_faults() {
    let mut reporter = FaultReporter::default();
    reporter.record_panic(8, FaultPhase::Shutdown, TraceContext::empty(), "stack");
    let last = reporter.last().unwrap();
    assert_eq!(last.kind, FaultKind::Panic);
    assert_eq!(last.severity, FaultSeverity::Fatal);
    assert_eq!(last.task_id, 8);
    assert_eq!(last.status, KernelStatus::Internal);
    assert_eq!(last.phase, FaultPhase::Shutdown);
    assert_eq!(last.reason, "stack");
}
