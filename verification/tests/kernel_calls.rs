use alani_kernel::audit::{AuditEventKind, AuditSeverity};
use alani_kernel::capability::{Capability, CapabilitySet};
use alani_kernel::device::{
    DeviceClass, DeviceDescriptor, DeviceLifecycle, DeviceOperation, DmaPolicy,
};
use alani_kernel::error::{KernelError, KernelStatus};
use alani_kernel::fault::{FaultKind, FaultPhase, FaultSeverity};
use alani_kernel::memory::{
    AllocatorPhase, MemoryPermissions, MemoryRegion, MemoryRegionKind, SharedMemoryHandle,
    DEFAULT_USER_LOWER_BOUND,
};
use alani_kernel::scheduler::{TaskState, DEFAULT_PRIORITY, MAX_TASKS};
use alani_kernel::syscall::{
    DispatchContext, ExecutionContext, SyscallFrame, SyscallNumber, SyscallResult, TraceContext,
    SYSCALL_NUMBERS, USER_BUFFER_READ,
};
use alani_kernel::{component_info, ComponentStatus, Kernel, KernelConfig};

fn every_right() -> CapabilitySet {
    CapabilitySet::from_bits(0x7fff).unwrap()
}

fn call(kernel: &mut Kernel, number: SyscallNumber, args: [u64; 6]) -> SyscallResult {
    kernel.handle_syscall(
        SyscallFrame::new(number, args),
        DispatchContext::task(1, every_right()),
    )
}

#[test]
fn component_identity_is_complete() {
    let info = component_info();
    assert_eq!(info.repository, "alani-kernel");
    assert_eq!(info.version, "0.1.0");
    assert_eq!(info.status, ComponentStatus::Experimental);
    assert_eq!(
        alani_kernel::module_names(),
        &[
            "audit",
            "boot",
            "capability",
            "device",
            "error",
            "fault",
            "memory",
            "scheduler",
            "syscall",
        ]
    );
    assert_eq!(KernelConfig::default().max_user_buffer_len, 16 * 1024 * 1024);
    assert_eq!(Kernel::default(), Kernel::new());
}

#[test]
fn boot_spawns_one_task_without_authority() {
    let mut kernel = Kernel::new();
    kernel.initialize_host().unwrap();
    assert_eq!(kernel.boot.completed_count(), 14);
    assert_eq!(kernel.scheduler.run_queue().len(), 1);
    let task = kernel.scheduler.run_queue().get(1).unwrap();
    assert_eq!(task.state, TaskState::Ready);
    assert_eq!(task.base_priority, DEFAULT_PRIORITY);
    assert!(task.capabilities.is_empty());
}

#[test]
fn boot_happens_once() {
    let mut kernel = Kernel::new();
    kernel.initialize_host().unwrap();
    let booted = kernel.clone();
    assert_eq!(kernel.initialize_host(), Err(KernelError::InvalidState));
    assert_eq!(kernel, booted);
}

#[test]
fn boot_stops_at_a_used_allocator() {
    let mut kernel = Kernel::new();
    kernel.memory.set_allocator_phase(AllocatorPhase::BootBump).unwrap();
    kernel.memory.set_allocator_phase(AllocatorPhase::Frame).unwrap();
    assert_eq!(kernel.initialize_host(), Err(KernelError::InvalidState));
    assert_eq!(kernel.boot.completed_count(), 6);
    assert_eq!(kernel.memory.allocator_phase(), AllocatorPhase::Frame);
    assert!(kernel.scheduler.run_queue().is_empty());
}

#[test]
fn boot_stops_at_a_full_run_queue() {
    let mut kernel = Kernel::new();
    for _ in 0..MAX_TASKS {
        call(&mut kernel, SyscallNumber::SysTaskSpawn, [0; 6]);
    }
    assert_eq!(kernel.initialize_host(), Err(KernelError::CapacityExceeded));
    assert_eq!(kernel.boot.completed_count(), 13);
    assert_eq!(kernel.memory.allocator_phase(), AllocatorPhase::Heap);
}

#[test]
fn rejected_calls_change_only_the_diagnostics() {
    for number in SYSCALL_NUMBERS {
        let mut kernel = Kernel::new();
        kernel.initialize_host().unwrap();
        let before = kernel.clone();
        let frame = SyscallFrame::new(number, [DEFAULT_USER_LOWER_BOUND, 16, 2, 3, 4, 5]);
        let context = DispatchContext {
            execution: ExecutionContext::EarlyBoot,
            ..DispatchContext::task(1, every_right())
        };
        let result = kernel.handle_syscall(frame, context);
        if result.status == KernelStatus::Busy {
            assert_eq!(kernel.memory, before.memory);
            assert_eq!(kernel.scheduler, before.scheduler);
            assert_eq!(kernel.devices, before.devices);
            assert_eq!(kernel.boot, before.boot);
            let fault = kernel.faults.last().unwrap();
            assert_eq!(fault.kind, FaultKind::InvariantViolation);
            assert_eq!(fault.severity, FaultSeverity::Warning);
            assert_eq!(fault.phase, FaultPhase::Boot);
            assert_eq!(fault.reason, "busy");
        } else {
            assert!(matches!(
                number,
                SyscallNumber::SysInfo | SyscallNumber::SysTime | SyscallNumber::SysTraceContext
            ));
        }
    }
}

#[test]
fn denials_are_audited_as_critical() {
    let mut kernel = Kernel::new();
    let trace = TraceContext { trace_id: 11, ..TraceContext::empty() };
    let frame = SyscallFrame { trace, ..SyscallFrame::new(SyscallNumber::SysTaskStatus, [0; 6]) };
    let result = kernel.handle_syscall(frame, DispatchContext::task(6, CapabilitySet::empty()));
    assert_eq!(result, SyscallResult::error(KernelError::MissingCapability));
    assert_eq!(kernel.audit.len(), 1);
    let event = kernel.audit.last().unwrap();
    assert_eq!(event.kind, AuditEventKind::SecurityDecision);
    assert_eq!(event.severity, AuditSeverity::Critical);
    assert_eq!(event.task_id, 6);
    assert_eq!(event.syscall, Some(SyscallNumber::SysTaskStatus));
    assert_eq!(event.trace, trace);
    assert_eq!(kernel.faults.len(), 1);
    let fault = kernel.faults.last().unwrap();
    assert_eq!(fault.kind, FaultKind::CapabilityDenied);
    assert_eq!(fault.severity, FaultSeverity::Error);
    assert_eq!(fault.phase, FaultPhase::Runtime);
    assert_eq!(fault.reason, "missing_capability");
}

#[test]
fn unknown_calls_are_not_audited() {
    let mut kernel = Kernel::new();
    let result = kernel.handle_syscall(
        SyscallFrame::raw(0x0700, [0; 6]),
        DispatchContext::task(1, every_right()),
    );
    assert_eq!(result.status, KernelStatus::InvalidArgument);
    assert!(kernel.audit.is_empty());
    assert_eq!(kernel.faults.last().unwrap().kind, FaultKind::InvalidSyscall);
}

#[test]
fn failures_leave_one_fault_and_successes_none() {
    let mut kernel = Kernel::new();
    let failed = call(&mut kernel, SyscallNumber::SysTaskCancel, [42, 0, 0, 0, 0, 0]);
    assert_eq!(failed.status, KernelStatus::NotFound);
    assert_eq!(kernel.faults.len(), 1);
    let fault = kernel.faults.last().unwrap();
    assert_eq!(fault.kind, FaultKind::InvariantViolation);
    assert_eq!(fault.severity, FaultSeverity::Warning);
    assert_eq!(fault.reason, "not_found");
    assert_eq!(kernel.audit.last().unwrap().reason, "syscall_failed");
    let joined = call(&mut kernel, SyscallNumber::SysTaskJoin, [42, 0, 0, 0, 0, 0]);
    assert_eq!(joined, SyscallResult::ok(42, 0));
    assert_eq!(kernel.faults.len(), 1);
    assert_eq!(kernel.audit.len(), 2);
    assert_eq!(kernel.audit.last().unwrap().reason, "ok");
}

#[test]
fn wrong_buffer_direction_is_an_invalid_argument() {
    let mut kernel = Kernel::new();
    let args = [DEFAULT_USER_LOWER_BOUND, 64, USER_BUFFER_READ as u64, 0, 0, 0];
    let result = call(&mut kernel, SyscallNumber::SysInfo, args);
    assert_eq!(result.status, KernelStatus::InvalidArgument);
    assert!(kernel.audit.is_empty());
    let fault = kernel.faults.last().unwrap();
    assert_eq!(fault.kind, FaultKind::InvariantViolation);
    assert_eq!(fault.reason, "invalid_argument");
    assert_eq!(fault.phase, FaultPhase::Runtime);
}

#[test]
fn failures_in_early_boot_are_boot_faults() {
    let mut kernel = Kernel::new();
    let context = DispatchContext {
        execution: ExecutionContext::EarlyBoot,
        ..DispatchContext::task(1, CapabilitySet::empty())
    };
    let frame = SyscallFrame::new(SyscallNumber::SysInfo, [0, 0, 2, 0, 0, 0]);
    let result = kernel.handle_syscall(frame, context);
    assert_eq!(result.status, KernelStatus::InvalidArgument);
    assert_eq!(kernel.faults.last().unwrap().phase, FaultPhase::Boot);
}

#[test]
fn denials_by_a_device_are_audited() {
    let mut kernel = Kernel::new();
    kernel
        .devices
        .register(DeviceDescriptor {
            id: 4,
            class: DeviceClass::Block,
            lifecycle: DeviceLifecycle::Registered,
            required_capabilities: CapabilitySet::single(Capability::SecurityManage),
            supported_operations: 1,
            max_input_len: 8,
            max_output_len: 8,
            dma_policy: DmaPolicy::NoDma,
        })
        .unwrap();
    let result = kernel.handle_syscall(
        SyscallFrame::new(SyscallNumber::SysDeviceOpen, [4, 0, 0, 0, 0, 0]),
        DispatchContext::task(5, CapabilitySet::single(Capability::DeviceOpen)),
    );
    assert_eq!(result.status, KernelStatus::PermissionDenied);
    assert_eq!(kernel.audit.len(), 1);
    let event = kernel.audit.last().unwrap();
    assert_eq!(event.severity, AuditSeverity::Critical);
    assert_eq!(event.task_id, 5);
    assert_eq!(event.reason, "syscall_failed");
    let fault = kernel.faults.last().unwrap();
    assert_eq!(fault.kind, FaultKind::CapabilityDenied);
    assert_eq!(fault.reason, "permission_denied");
}

#[test]
fn info_reports_version_and_table_size() {
    let mut kernel = Kernel::new();
    let args = [DEFAULT_USER_LOWER_BOUND, 64, 0x1_0000_0002, 0, 0, 0];
    let result = call(&mut kernel, SyscallNumber::SysInfo, args);
    assert_eq!(result, SyscallResult::ok(0x0000_0001_0000_0000, 32));
}

#[test]
fn spawned_tasks_inherit_nothing() {
    let mut kernel = Kernel::new();
    let spawned = call(&mut kernel, SyscallNumber::SysTaskSpawn, [0, 0, 0, 77, 0, 0]);
    assert_eq!(spawned, SyscallResult::ok(1, 0));
    let task = kernel.scheduler.run_queue().get(1).unwrap();
    assert!(task.capabilities.is_empty());
    assert_eq!(task.base_priority, 77);
    assert_eq!(task.parent_id, 1);
    call(&mut kernel, SyscallNumber::SysTaskSpawn, [0; 6]);
    assert_eq!(
        kernel.scheduler.run_queue().get(2).unwrap().base_priority,
        DEFAULT_PRIORITY
    );
    let loud = call(&mut kernel, SyscallNumber::SysTaskSpawn, [0, 0, 0, 256, 0, 0]);
    assert_eq!(loud.status, KernelStatus::InvalidArgument);
    let lost = call(&mut kernel, SyscallNumber::SysTaskSpawn, [0x10, 8, 0, 1, 0, 0]);
    assert_eq!(lost.status, KernelStatus::InvalidArgument);
    assert_eq!(kernel.scheduler.run_queue().len(), 2);
}

#[test]
fn yield_exit_and_status_follow_the_task() {
    let mut kernel = Kernel::new();
    assert_eq!(call(&mut kernel, SyscallNumber::SysYield, [0; 6]), SyscallResult::ok(0, 0));
    call(&mut kernel, SyscallNumber::SysTaskSpawn, [0; 6]);
    assert_eq!(call(&mut kernel, SyscallNumber::SysYield, [0; 6]), SyscallResult::ok(1, 0));
    assert_eq!(call(&mut kernel, SyscallNumber::SysTime, [0; 6]), SyscallResult::ok(2, 0));
    let status = call(&mut kernel, SyscallNumber::SysTaskStatus, [1, 0, 0, 0, 0, 0]);
    assert_eq!(status, SyscallResult::ok(TaskState::Running as u64, 1));
    assert_eq!(call(&mut kernel, SyscallNumber::SysExit, [0; 6]), SyscallResult::ok(1, 0));
    let again = call(&mut kernel, SyscallNumber::SysExit, [0; 6]);
    assert_eq!(again.status, KernelStatus::InvalidArgument);
    let status = call(&mut kernel, SyscallNumber::SysTaskStatus, [1, 0, 0, 0, 0, 0]);
    assert_eq!(status, SyscallResult::ok(TaskState::Zombie as u64, 1));
    let missing = call(&mut kernel, SyscallNumber::SysTaskStatus, [5, 0, 0, 0, 0, 0]);
    assert_eq!(missing.status, KernelStatus::NotFound);
}

#[test]
fn memory_calls_check_and_report() {
    let mut kernel = Kernel::new();
    let usable = MemoryRegion::new(
        0x10_0000,
        0x3000,
        MemoryRegionKind::Usable,
        MemoryPermissions::read(),
    );
    kernel.memory.memory_map_mut().push(usable.unwrap()).unwrap();
    let low = DEFAULT_USER_LOWER_BOUND;
    assert_eq!(
        call(&mut kernel, SyscallNumber::SysMemQuery, [0; 6]),
        SyscallResult::ok(0x3000, 1)
    );
    assert_eq!(
        call(&mut kernel, SyscallNumber::SysMemMap, [low, 32, 0, 0, 0, 0]),
        SyscallResult::ok(low, 32)
    );
    assert_eq!(
        call(&mut kernel, SyscallNumber::SysMemUnmap, [low, 0, 0, 0, 0, 0]).status,
        KernelStatus::InvalidArgument
    );
    assert_eq!(
        call(&mut kernel, SyscallNumber::SysRandom, [low, 48, 0, 0, 0, 0]),
        SyscallResult::ok(0, 48)
    );
    assert_eq!(
        call(&mut kernel, SyscallNumber::SysMemShare, [low, 32, 64, 0, 0, 0]).status,
        KernelStatus::InvalidArgument
    );
    assert_eq!(
        call(&mut kernel, SyscallNumber::SysMemSeal, [1, 0, 0, 0, 0, 0]).status,
        KernelStatus::NotFound
    );
}

#[test]
fn sealed_regions_survive_further_calls() {
    let mut kernel = Kernel::new();
    let low = DEFAULT_USER_LOWER_BOUND;
    let share = call(&mut kernel, SyscallNumber::SysMemShare, [low, 32, 3, 0, 0, 0]);
    assert_eq!(share, SyscallResult::ok(1, 3));
    for number in SYSCALL_NUMBERS {
        call(&mut kernel, number, [low, 16, 3, 1, 0, 0]);
    }
    let seal = call(&mut kernel, SyscallNumber::SysMemSeal, [1, 0, 0, 0, 0, 0]);
    assert_eq!(seal, SyscallResult::ok(1, 0));
    for number in SYSCALL_NUMBERS {
        call(&mut kernel, number, [low, 16, 3, 1, 0, 0]);
    }
    let handle = SharedMemoryHandle { id: 1, ..SharedMemoryHandle::invalid() };
    let region = kernel.memory.shared_region(handle).unwrap();
    assert_eq!((region.start, region.len, region.sealed), (low, 32, true));
    assert_eq!(region.handle.owner_task, 1);
    assert_eq!(region.handle.permissions, 1 | 32);
}

#[test]
fn device_calls_reach_the_registry() {
    let mut kernel = Kernel::new();
    kernel
        .devices
        .register(DeviceDescriptor {
            id: 4,
            class: DeviceClass::Block,
            lifecycle: DeviceLifecycle::Registered,
            required_capabilities: CapabilitySet::empty(),
            supported_operations: 1 << (DeviceOperation::Write as u32),
            max_input_len: 8,
            max_output_len: 8,
            dma_policy: DmaPolicy::NoDma,
        })
        .unwrap();
    assert_eq!(
        call(&mut kernel, SyscallNumber::SysDeviceList, [0; 6]),
        SyscallResult::ok(1, 0)
    );
    assert_eq!(
        call(&mut kernel, SyscallNumber::SysDeviceOpen, [4, 0, 0, 0, 0, 0]),
        SyscallResult::ok(4, DeviceClass::Block as u64)
    );
    assert_eq!(
        call(&mut kernel, SyscallNumber::SysDeviceCall, [4, 2, 0, 8, 0, 8]),
        SyscallResult::ok(0, 0)
    );
    assert_eq!(
        call(&mut kernel, SyscallNumber::SysDeviceCall, [4, 2, 0, 8, 0, 9]).status,
        KernelStatus::InvalidArgument
    );
    assert_eq!(
        call(&mut kernel, SyscallNumber::SysDeviceCall, [4, 7, 0, 0, 0, 0]).status,
        KernelStatus::InvalidArgument
    );
    assert_eq!(
        call(&mut kernel, SyscallNumber::SysDeviceClose, [4, 0, 0, 0, 0, 0]),
        SyscallResult::ok(4, 0)
    );
}

#[test]
fn remaining_calls_answer_directly() {
    let mut kernel = Kernel::new();
    let trace = TraceContext { trace_id: 21, span_id: 22, ..TraceContext::empty() };
    let frame = SyscallFrame { trace, ..SyscallFrame::new(SyscallNumber::SysTraceContext, [0; 6]) };
    assert_eq!(
        kernel.handle_syscall(frame, DispatchContext::task(1, CapabilitySet::empty())),
        SyscallResult::ok(21, 22)
    );
    assert_eq!(
        call(&mut kernel, SyscallNumber::SysModelOpen, [9, 0, 0, 0, 0, 0]),
        SyscallResult::ok(9, 0)
    );
    assert_eq!(
        call(&mut kernel, SyscallNumber::SysInfer, [0; 6]).status,
        KernelStatus::DeadlineExceeded
    );
    assert_eq!(
        call(&mut kernel, SyscallNumber::SysInfer, [0, 0, 0, 1, 0, 0]),
        SyscallResult::ok(0, 0)
    );
    assert_eq!(
        call(&mut kernel, SyscallNumber::SysAttest, [0; 6]),
        SyscallResult::ok(0x0000_0001_0000_0000, 0)
    );
}

#[test]
fn audit_calls_read_the_log_before_their_own_event() {
    let mut kernel = Kernel::new();
    let first = kernel.audit.next_sequence();
    assert_eq!(
        call(&mut kernel, SyscallNumber::SysAuditQuery, [0; 6]),
        SyscallResult::ok(0, 0)
    );
    assert_eq!(
        call(&mut kernel, SyscallNumber::SysAuditAppend, [0; 6]),
        SyscallResult::ok(first + 1, 0)
    );
    assert_eq!(
        call(&mut kernel, SyscallNumber::SysAuditVerify, [0; 6]),
        SyscallResult::ok(first + 1, 0)
    );
    assert_eq!(kernel.audit.len(), 3);
}
