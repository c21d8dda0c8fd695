//! Authority-bearing kernel core for Alani.
//!
//! The crate holds host-mode contracts for boot ordering, syscall validation,
//! scheduler simulation, memory validation, device mediation, capabilities,
//! audit handoff, and fault diagnostics, and the kernel that ties them
//! together.
use vstd::prelude::*;

pub mod audit;
pub mod boot;
pub mod capability;
pub mod device;
pub mod error;
pub mod fault;
pub mod memory;
pub mod ring;
pub mod scheduler;
pub mod slots;
pub mod syscall;

use audit::{AuditEvent, AuditEventKind, AuditLog, AuditState};
use boot::{BootPhase, BootProgress, BOOT_PHASE_COUNT, BOOT_SEQUENCE};
use capability::{CapabilitySet, TaskId};
use device::{DeviceDescriptor, DeviceOperation, DeviceRegistry};
use error::{KernelError, KernelResult, KernelStatus};
use fault::{FaultKind, FaultPhase, FaultRecord, FaultReporter, FaultSeverity, FaultState};
use memory::{
    AllocatorPhase, BufferAccess, MemoryManager, MemoryPermissions, MemoryRegionKind, MemoryState,
    SharedMemoryHandle,
};
use scheduler::{BudgetAccount, Scheduler, SchedulerClass, SchedulerState};
use syscall::{
    DispatchContext, ExecutionContext, SyscallDispatcher, SyscallFrame, SyscallNumber,
    SyscallResult, UserBuffer, SYSCALL_TABLE_INFO_SIZE, USER_BUFFER_READ, USER_BUFFER_WRITE,
};

verus! {

/// Repository name.
pub const REPOSITORY: &'static str = "alani-kernel";

/// Crate version.
pub const VERSION: &'static str = "0.1.0";

/// Number of public subsystem modules.
pub const MODULE_COUNT: usize = 9;

/// Public subsystem module names.
pub const MODULES: [&'static str; MODULE_COUNT] = [
    "audit",
    "boot",
    "capability",
    "device",
    "error",
    "fault",
    "memory",
    "scheduler",
    "syscall",
];

/// Implementation maturity marker for repository metadata.
#[derive(Clone, Copy, Debug, Eq, PartialEq, Structural)]
pub enum ComponentStatus {
    /// API is present as a draft.
    Draft,
    /// API is implemented enough for host-mode experimentation.
    Experimental,
    /// API is compatible and stable.
    Stable,
}

/// Stable component identity record.
#[derive(Clone, Debug, Eq, PartialEq)]
pub struct ComponentInfo {
    /// Repository name.
    pub repository: &'static str,
    /// Crate version.
    pub version: &'static str,
    /// Current implementation status.
    pub status: ComponentStatus,
}

/// Returns stable component identity metadata.
pub fn component_info() -> (info: ComponentInfo)
    ensures
        info.repository == REPOSITORY,
        info.version == VERSION,
        info.status == ComponentStatus::Experimental,
{
    ComponentInfo {
        repository: REPOSITORY,
        version: VERSION,
        status: ComponentStatus::Experimental,
    }
}

/// Returns the repository name.
pub fn repository_name() -> (name: &'static str)
    ensures
        name == REPOSITORY,
{
    REPOSITORY
}

/// Returns public module names.
pub fn module_names() -> (names: &'static [&'static str])
    ensures
        names@ == MODULES@,
{
    &MODULES
}

/// Runtime configuration for the host-mode kernel.
#[derive(Clone, Copy, Debug, Eq, PartialEq, Structural)]
pub struct KernelConfig {
    /// Maximum user buffer length accepted by memory validation.
    pub max_user_buffer_len: u64,
}

impl KernelConfig {
    /// Default configuration aligned with the syscall table metadata.
    pub fn default() -> (config: Self)
        ensures
            config.max_user_buffer_len == syscall::DEFAULT_MAX_SYSCALL_BUFFER_SIZE,
    {
        Self { max_user_buffer_len: syscall::DEFAULT_MAX_SYSCALL_BUFFER_SIZE }
    }
}

/// What a kernel holds: the states of its subsystems.
#[verifier::ext_equal]
pub struct KernelState {
    pub config: KernelConfig,
    pub boot: nat,
    pub memory: MemoryState,
    pub scheduler: SchedulerState,
    pub devices: Seq<DeviceDescriptor>,
    pub audit: AuditState,
    pub faults: FaultState,
}

/// The error a failed handler's status is reported under in a fault record.
pub open spec fn spec_error_for_status(status: KernelStatus) -> KernelError {
    match status {
        KernelStatus::Success => KernelError::Internal,
        KernelStatus::InvalidArgument => KernelError::InvalidArgument,
        KernelStatus::PermissionDenied => KernelError::PermissionDenied,
        KernelStatus::NotFound => KernelError::NotFound,
        KernelStatus::Busy => KernelError::Busy,
        KernelStatus::DeadlineExceeded => KernelError::DeadlineExceeded,
        KernelStatus::Internal => KernelError::Internal,
    }
}

/// The kind of fault a failed handler leaves: a denial, or a violated
/// expectation.
pub open spec fn spec_fault_kind_for_status(status: KernelStatus) -> FaultKind {
    if status == KernelStatus::PermissionDenied {
        FaultKind::CapabilityDenied
    } else {
        FaultKind::InvariantViolation
    }
}

/// The kernel phase in which a fault of a call from an execution context occurs.
pub open spec fn spec_fault_phase(execution: ExecutionContext) -> FaultPhase {
    if execution == ExecutionContext::EarlyBoot {
        FaultPhase::Boot
    } else {
        FaultPhase::Runtime
    }
}

/// The kind of fault a rejected syscall leaves.
pub open spec fn rejection_fault_kind(error: KernelError) -> FaultKind {
    if error == KernelError::UnknownSyscall {
        FaultKind::InvalidSyscall
    } else if error == KernelError::MissingCapability || error == KernelError::PermissionDenied {
        FaultKind::CapabilityDenied
    } else {
        FaultKind::InvariantViolation
    }
}

/// A result that carries a value on success and the status of an error
/// otherwise.
pub open spec fn result_or_error(
    error: Option<KernelError>,
    value: u64,
    detail: u64,
) -> SyscallResult {
    match error {
        None => SyscallResult::spec_ok(value, detail),
        Some(error) => SyscallResult::spec_error(error),
    }
}

impl KernelState {
    /// What every kernel keeps: each subsystem is in a valid state.
    pub open spec fn valid(self) -> bool {
        &&& self.boot <= BOOT_PHASE_COUNT
        &&& self.memory.valid()
        &&& self.scheduler.valid()
        &&& device::devices_valid(self.devices)
        &&& self.audit.valid()
        &&& self.faults.valid()
    }

    /// The scheduler after a task without authority, budget or deadline was
    /// asked to be spawned.
    pub open spec fn after_plain_spawn(self, parent_id: TaskId, priority: u8) -> SchedulerState {
        self.scheduler.spawned(
            parent_id,
            SchedulerClass::Runtime,
            priority,
            CapabilitySet::spec_empty(),
            BudgetAccount::spec_unlimited(),
        )
    }

    /// What booting returns. Boot must start from the first phase, with an
    /// allocator that has not passed the boot stage, and end with room for the
    /// first task.
    pub open spec fn boot_result(self) -> KernelResult<()> {
        if self.boot != 0 {
            Err(KernelError::InvalidState)
        } else if !memory::phase_step_allowed(self.memory.phase, AllocatorPhase::BootBump) {
            Err(KernelError::InvalidState)
        } else {
            match self.scheduler.spawn_error() {
                Some(error) => Err(error),
                None => Ok(()),
            }
        }
    }

    /// The kernel after booting. Phases before the one that failed are
    /// complete.
    pub open spec fn booted(self) -> KernelState {
        if self.boot != 0 {
            self
        } else if !memory::phase_step_allowed(self.memory.phase, AllocatorPhase::BootBump) {
            KernelState { boot: BootPhase::Allocator as nat, ..self }
        } else {
            KernelState {
                boot: if self.scheduler.spawn_error() is Some {
                    BootPhase::RuntimeSpawn as nat
                } else {
                    BOOT_PHASE_COUNT as nat
                },
                memory: MemoryState { phase: AllocatorPhase::Heap, ..self.memory },
                scheduler: self.after_plain_spawn(0, scheduler::DEFAULT_PRIORITY),
                ..self
            }
        }
    }

    /// Why a spawn request is refused before the scheduler sees it, if it is:
    /// a manifest that is given must be readable, and the priority must fit a
    /// byte.
    pub open spec fn spawn_request_error(self, frame: SyscallFrame) -> Option<KernelError> {
        let manifest = UserBuffer {
            ptr: frame.args@[0],
            len: frame.args@[1],
            flags: USER_BUFFER_READ,
            reserved: 0,
        };
        if frame.args@[1] != 0 && self.memory.buffer_error(manifest, BufferAccess::Read) is Some {
            self.memory.buffer_error(manifest, BufferAccess::Read)
        } else if frame.args@[3] > u8::MAX {
            Some(KernelError::InvalidArgument)
        } else {
            None
        }
    }

    /// The priority a spawn request asks for; zero asks for the default.
    pub open spec fn requested_priority(frame: SyscallFrame) -> u8 {
        if frame.args@[3] == 0 {
            scheduler::DEFAULT_PRIORITY
        } else {
            frame.args@[3] as u8
        }
    }

    /// Why a share request is refused, if it is.
    pub open spec fn share_request_error(self, frame: SyscallFrame) -> Option<KernelError> {
        let permissions = frame.args@[2] as u32;
        if !memory::only_known_permissions(permissions) {
            Some(KernelError::ReservedBits)
        } else {
            self.memory.share_error(frame.args@[0], frame.args@[1], permissions)
        }
    }

    /// What the handler of a validated syscall returns.
    pub open spec fn handler_result(
        self,
        number: SyscallNumber,
        frame: SyscallFrame,
        context: DispatchContext,
    ) -> SyscallResult {
        let args = frame.args@;
        match number {
            SyscallNumber::SysInfo => result_or_error(
                self.memory.buffer_error(
                    UserBuffer {
                        ptr: args[0],
                        len: args[1],
                        flags: args[2] as u32,
                        reserved: 0,
                    },
                    BufferAccess::Write,
                ),
                syscall::spec_abi_version().spec_packed(),
                SYSCALL_TABLE_INFO_SIZE,
            ),
            SyscallNumber::SysYield => match self.scheduler.yield_result() {
                Ok(Some(task_id)) => SyscallResult::spec_ok(task_id, 0),
                Ok(None) => SyscallResult::spec_ok(0, 0),
                Err(error) => SyscallResult::spec_error(error),
            },
            SyscallNumber::SysExit => match self.scheduler.cancel_result(context.task_id) {
                Ok(_) => SyscallResult::spec_ok(context.task_id, 0),
                Err(error) => SyscallResult::spec_error(error),
            },
            SyscallNumber::SysTime => SyscallResult::spec_ok(self.scheduler.tick, 0),
            SyscallNumber::SysTraceContext => SyscallResult::spec_ok(
                frame.trace.trace_id,
                frame.trace.span_id,
            ),
            SyscallNumber::SysTaskSpawn => match self.spawn_request_error(frame) {
                Some(error) => SyscallResult::spec_error(error),
                None => match self.scheduler.spawn_result() {
                    Ok(task_id) => SyscallResult::spec_ok(task_id, 0),
                    Err(error) => SyscallResult::spec_error(error),
                },
            },
            SyscallNumber::SysTaskJoin => SyscallResult::spec_ok(args[0], 0),
            SyscallNumber::SysTaskCancel => match self.scheduler.cancel_result(args[0]) {
                Ok(_) => SyscallResult::spec_ok(args[0], 0),
                Err(error) => SyscallResult::spec_error(error),
            },
            SyscallNumber::SysTaskStatus => match scheduler::first_task(
                self.scheduler.tasks,
                args[0],
            ) {
                Some(i) => SyscallResult::spec_ok(
                    self.scheduler.tasks[i].state as u64,
                    self.scheduler.tasks[i].context_switches,
                ),
                None => SyscallResult::spec_error(KernelError::NotFound),
            },
            SyscallNumber::SysMemMap | SyscallNumber::SysMemUnmap => result_or_error(
                self.memory.range_error(args[0], args[1]),
                args[0],
                args[1],
            ),
            SyscallNumber::SysMemQuery => SyscallResult::spec_ok(
                memory::total_of_kind(self.memory.regions, MemoryRegionKind::Usable) as u64,
                self.memory.regions.len() as u64,
            ),
            SyscallNumber::SysMemShare => result_or_error(
                self.share_request_error(frame),
                (self.memory.shared.len() + 1) as u64,
                (args[2] as u32) as u64,
            ),
            SyscallNumber::SysMemSeal => if self.memory.is_shared(args[0]) {
                SyscallResult::spec_ok(args[0], 0)
            } else {
                SyscallResult::spec_error(KernelError::NotFound)
            },
            SyscallNumber::SysDeviceList => SyscallResult::spec_ok(self.devices.len() as u64, 0),
            SyscallNumber::SysDeviceOpen => match device::open_result(
                self.devices,
                args[0],
                context.capabilities,
            ) {
                Ok(descriptor) => SyscallResult::spec_ok(descriptor.id, descriptor.class as u64),
                Err(error) => SyscallResult::spec_error(error),
            },
            SyscallNumber::SysDeviceCall => match DeviceOperation::spec_from_raw(args[1]) {
                None => SyscallResult::spec_error(KernelError::InvalidArgument),
                Some(operation) => match device::call_result(
                    self.devices,
                    args[0],
                    operation,
                    context.capabilities,
                    args[3],
                    args[5],
                ) {
                    Ok(_) => SyscallResult::spec_ok(0, 0),
                    Err(error) => SyscallResult::spec_error(error),
                },
            },
            SyscallNumber::SysDeviceClose => SyscallResult::spec_ok(args[0], 0),
            SyscallNumber::SysModelList => SyscallResult::spec_ok(0, 0),
            SyscallNumber::SysModelOpen => SyscallResult::spec_ok(args[0], 0),
            SyscallNumber::SysInfer => if args[3] == 0 {
                SyscallResult::spec_error(KernelError::DeadlineExceeded)
            } else {
                SyscallResult::spec_ok(0, 0)
            },
            SyscallNumber::SysMemoryQuery | SyscallNumber::SysMemoryPut => SyscallResult::spec_ok(
                0,
                0,
            ),
            SyscallNumber::SysCapDerive | SyscallNumber::SysCapRevoke => SyscallResult::spec_ok(
                0,
                0,
            ),
            SyscallNumber::SysAttest => SyscallResult::spec_ok(
                syscall::spec_abi_version().spec_packed(),
                0,
            ),
            SyscallNumber::SysRandom => result_or_error(
                self.memory.buffer_error(
                    UserBuffer {
                        ptr: args[0],
                        len: args[1],
                        flags: USER_BUFFER_WRITE,
                        reserved: 0,
                    },
                    BufferAccess::Write,
                ),
                0,
                args[1],
            ),
            SyscallNumber::SysAuditAppend => SyscallResult::spec_ok(self.audit.next_sequence, 0),
            SyscallNumber::SysAuditQuery => SyscallResult::spec_ok(
                self.audit.events.len() as u64,
                0,
            ),
            SyscallNumber::SysAuditVerify => SyscallResult::spec_ok(
                if self.audit.next_sequence == 0 {
                    0
                } else {
                    (self.audit.next_sequence - 1) as u64
                },
                0,
            ),
        }
    }

    /// The kernel after the handler of a validated syscall. Only yielding,
    /// exiting, spawning, cancelling, sharing and sealing change anything.
    pub open spec fn after_handler(
        self,
        number: SyscallNumber,
        frame: SyscallFrame,
        context: DispatchContext,
    ) -> KernelState {
        let args = frame.args@;
        match number {
            SyscallNumber::SysYield => KernelState {
                scheduler: self.scheduler.yielded(),
                ..self
            },
            SyscallNumber::SysExit => KernelState {
                scheduler: self.scheduler.cancelled(context.task_id),
                ..self
            },
            SyscallNumber::SysTaskSpawn => if self.spawn_request_error(frame) is Some {
                self
            } else {
                KernelState {
                    scheduler: self.after_plain_spawn(
                        context.task_id,
                        KernelState::requested_priority(frame),
                    ),
                    ..self
                }
            },
            SyscallNumber::SysTaskCancel => KernelState {
                scheduler: self.scheduler.cancelled(args[0]),
                ..self
            },
            SyscallNumber::SysMemShare => if self.share_request_error(frame) is Some {
                self
            } else {
                KernelState {
                    memory: self.memory.after_share(
                        context.task_id,
                        args[0],
                        args[1],
                        args[2] as u32,
                    ),
                    ..self
                }
            },
            SyscallNumber::SysMemSeal => KernelState {
                memory: self.memory.after_seal(args[0]),
                ..self
            },
            _ => self,
        }
    }

    /// The audit log after a validated syscall: it has an event if the syscall
    /// is an audited one.
    pub open spec fn audited(
        self,
        number: SyscallNumber,
        status: KernelStatus,
        frame: SyscallFrame,
        context: DispatchContext,
    ) -> AuditState {
        match number.spec_audit_event() {
            Some(kind) => self.audit.appended(
                AuditEvent::spec_of_syscall(
                    kind,
                    context.task_id,
                    number,
                    status,
                    frame.trace,
                    if status == KernelStatus::Success {
                        "ok"
                    } else {
                        "syscall_failed"
                    },
                ),
            ),
            None => self.audit,
        }
    }

    /// The fault history after a validated syscall: it has a record if the
    /// syscall failed.
    pub open spec fn faulted(
        self,
        status: KernelStatus,
        frame: SyscallFrame,
        context: DispatchContext,
    ) -> FaultState {
        if status == KernelStatus::Success {
            self.faults
        } else {
            self.faults.recorded(
                FaultRecord::spec_from_error(
                    spec_fault_kind_for_status(status),
                    FaultSeverity::Warning,
                    context.task_id,
                    0,
                    spec_error_for_status(status),
                    spec_fault_phase(context.execution),
                    frame.trace,
                ),
            )
        }
    }

    /// The audit event kind of a rejected syscall: that of the syscall if it
    /// is an audited one, a security decision if it was denied.
    pub open spec fn rejection_event(frame: SyscallFrame, error: KernelError) -> Option<
        AuditEventKind,
    > {
        match SyscallNumber::spec_from_raw(frame.number) {
            None => None,
            Some(number) => match number.spec_audit_event() {
                Some(kind) => Some(kind),
                None => if error.spec_status() == KernelStatus::PermissionDenied {
                    Some(AuditEventKind::SecurityDecision)
                } else {
                    None
                },
            },
        }
    }

    /// The fault record of a rejected syscall, before it is stamped.
    pub open spec fn rejection_fault(
        frame: SyscallFrame,
        context: DispatchContext,
        error: KernelError,
    ) -> FaultRecord {
        FaultRecord::spec_from_error(
            rejection_fault_kind(error),
            if error.spec_status() == KernelStatus::PermissionDenied {
                FaultSeverity::Error
            } else {
                FaultSeverity::Warning
            },
            context.task_id,
            0,
            error,
            spec_fault_phase(context.execution),
            frame.trace,
        )
    }

    /// The kernel after it rejected a syscall: only the audit log and the
    /// fault history have changed.
    pub open spec fn after_rejection(
        self,
        frame: SyscallFrame,
        context: DispatchContext,
        error: KernelError,
    ) -> KernelState {
        KernelState {
            audit: match KernelState::rejection_event(frame, error) {
                Some(kind) => self.audit.appended(
                    AuditEvent::spec_of_syscall(
                        kind,
                        context.task_id,
                        SyscallNumber::spec_from_raw(frame.number).unwrap(),
                        error.spec_status(),
                        frame.trace,
                        error.spec_reason(),
                    ),
                ),
                None => self.audit,
            },
            faults: self.faults.recorded(KernelState::rejection_fault(frame, context, error)),
            ..self
        }
    }

    /// What a syscall returns.
    pub open spec fn syscall_result(
        self,
        frame: SyscallFrame,
        context: DispatchContext,
    ) -> SyscallResult {
        match syscall::validated(frame.number, context) {
            Err(error) => SyscallResult::spec_error(error),
            Ok(number) => self.handler_result(number, frame, context),
        }
    }

    /// The kernel after a syscall.
    pub open spec fn after_syscall(
        self,
        frame: SyscallFrame,
        context: DispatchContext,
    ) -> KernelState {
        match syscall::validated(frame.number, context) {
            Err(error) => self.after_rejection(frame, context, error),
            Ok(number) => {
                let status = self.handler_result(number, frame, context).status;
                let after = self.after_handler(number, frame, context);
                KernelState {
                    audit: self.audited(number, status, frame, context),
                    faults: self.faulted(status, frame, context),
                    ..after
                }
            },
        }
    }

    /// Whether a syscall's answer can be computed: a memory query needs the
    /// usable bytes of the map to be a number of 64 bits, which they are
    /// whenever the regions of the map end at addresses.
    pub open spec fn syscall_defined(self, frame: SyscallFrame, context: DispatchContext) -> bool {
        syscall::validated(frame.number, context) == Ok::<SyscallNumber, KernelError>(
            SyscallNumber::SysMemQuery,
        ) ==> memory::total_of_kind(self.memory.regions, MemoryRegionKind::Usable) <= u64::MAX
    }
}

/// Aggregated kernel subsystem state for host-mode tests.
#[derive(Clone, Debug, Eq, PartialEq)]
pub struct Kernel {
    /// Configuration values.
    pub config: KernelConfig,
    /// Boot phase progress tracker.
    pub boot: BootProgress,
    /// Memory manager.
    pub memory: MemoryManager,
    /// Cooperative scheduler.
    pub scheduler: Scheduler,
    /// Device registry.
    pub devices: DeviceRegistry,
    /// Audit ring buffer.
    pub audit: AuditLog,
    /// Fault diagnostic ring buffer.
    pub faults: FaultReporter,
    /// Syscall table validator, which holds no state.
    pub syscalls: SyscallDispatcher,
}

impl View for Kernel {
    type V = KernelState;

    open spec fn view(&self) -> KernelState {
        KernelState {
            config: self.config,
            boot: self.boot@,
            memory: self.memory@,
            scheduler: self.scheduler@,
            devices: self.devices@,
            audit: self.audit@,
            faults: self.faults@,
        }
    }
}

impl Kernel {
    /// Every subsystem is well formed.
    pub open spec fn wf(&self) -> bool {
        &&& self.boot.wf()
        &&& self.memory.wf()
        &&& self.scheduler.wf()
        &&& self.devices.wf()
        &&& self.audit.wf()
        &&& self.faults.wf()
    }

    /// The state of a fresh kernel. Its buffer limit is the one it is
    /// configured with and reports.
    pub open spec fn spec_new() -> KernelState {
        KernelState {
            config: KernelConfig {
                max_user_buffer_len: syscall::DEFAULT_MAX_SYSCALL_BUFFER_SIZE,
            },
            boot: 0,
            memory: MemoryManager::spec_new(),
            scheduler: Scheduler::spec_new(),
            devices: Seq::empty(),
            audit: AuditLog::spec_new(),
            faults: FaultReporter::spec_new(),
        }
    }

    /// Creates a new kernel with default subsystem state.
    pub fn new() -> (kernel: Self)
        ensures
            kernel.wf(),
            kernel@ == Self::spec_new(),
            kernel@.memory.max_len == kernel.config.max_user_buffer_len,
            kernel@.boot_result() == Ok::<(), KernelError>(()),
            kernel@.config.max_user_buffer_len == 0x100_0000,
            kernel@.boot == 0,
            kernel@.memory == MemoryManager::spec_new(),
            kernel@.scheduler.tasks.len() == 0,
            kernel@.scheduler.current is None,
            kernel@.scheduler.tick == 0,
            kernel@.devices.len() == 0,
            kernel@.audit.events.len() == 0,
            kernel@.faults.records.len() == 0,
    {
        Self {
            config: KernelConfig::default(),
            boot: BootProgress::new(),
            memory: MemoryManager::new(),
            scheduler: Scheduler::new(),
            devices: DeviceRegistry::new(),
            audit: AuditLog::new(),
            faults: FaultReporter::new(),
            syscalls: SyscallDispatcher,
        }
    }

    /// Completes the deterministic host-mode boot sequence.
    ///
    /// Platform-specific setup can later replace the no-op phase bodies while
    /// preserving the order enforced here.
    pub fn initialize_host(&mut self) -> (result: KernelResult<()>)
        requires
            old(self).wf(),
        ensures
            final(self).wf(),
            result == old(self)@.boot_result(),
            final(self)@ == old(self)@.booted(),
    {
        let ghost before = self@;
        let mut index: usize = 0;
        while index < BOOT_PHASE_COUNT
            invariant
                index <= BOOT_PHASE_COUNT,
                self.wf(),
                before == old(self)@,
                index > 0 ==> before.boot == 0,
                index > BootPhase::Allocator as int ==> memory::phase_step_allowed(
                    before.memory.phase,
                    AllocatorPhase::BootBump,
                ),
                index > BootPhase::RuntimeSpawn as int ==> before.scheduler.spawn_error() is None,
                self@ == (KernelState {
                    boot: if index == 0 {
                        before.boot
                    } else {
                        index as nat
                    },
                    memory: MemoryState {
                        phase: if index > BootPhase::Allocator as int {
                            AllocatorPhase::Heap
                        } else {
                            before.memory.phase
                        },
                        ..before.memory
                    },
                    scheduler: if index > BootPhase::RuntimeSpawn as int {
                        before.after_plain_spawn(0, scheduler::DEFAULT_PRIORITY)
                    } else {
                        before.scheduler
                    },
                    ..before
                }),
            decreases BOOT_PHASE_COUNT - index,
        {
            let phase = BOOT_SEQUENCE[index];
            proof {
                boot::law_boot_sequence_is_declaration_order(index as int);
            }
            match phase {
                BootPhase::Allocator => {
                    match self.memory.set_allocator_phase(AllocatorPhase::BootBump) {
                        Ok(()) => {},
                        Err(error) => {
                            return Err(error);
                        },
                    }
                    match self.memory.set_allocator_phase(AllocatorPhase::Frame) {
                        Ok(()) => {},
                        Err(error) => {
                            return Err(error);
                        },
                    }
                    match self.memory.set_allocator_phase(AllocatorPhase::Heap) {
                        Ok(()) => {},
                        Err(error) => {
                            return Err(error);
                        },
                    }
                },
                BootPhase::RuntimeSpawn => {
                    match self.scheduler.spawn(
                        0,
                        SchedulerClass::Runtime,
                        scheduler::DEFAULT_PRIORITY,
                        CapabilitySet::empty(),
                        BudgetAccount::unlimited(),
                    ) {
                        Ok(_) => {},
                        Err(error) => {
                            return Err(error);
                        },
                    }
                },
                _ => {},
            }
            match self.boot.complete(phase) {
                Ok(()) => {},
                Err(error) => {
                    return Err(error);
                },
            }
            index += 1;
        }
        Ok(())
    }

    /// Dispatches a syscall through table validation, capability checks, audit,
    /// and host-mode subsystem handlers.
    pub fn handle_syscall(&mut self, frame: SyscallFrame, context: DispatchContext) -> (result:
        SyscallResult)
        requires
            old(self).wf(),
            old(self)@.syscall_defined(frame, context),
        ensures
            final(self).wf(),
            result == old(self)@.syscall_result(frame, context),
            final(self)@ == old(self)@.after_syscall(frame, context),
    {
        let descriptor = match self.syscalls.validate(&frame, context) {
            Ok(descriptor) => descriptor,
            Err(error) => {
                self.record_rejected_syscall(frame, context, error);
                return SyscallResult::error(error);
            },
        };
        let result = self.dispatch_validated(descriptor.number, frame, context);
        if let Some(kind) = descriptor.audit_event {
            let reason = if result.status.is_ok() {
                "ok"
            } else {
                "syscall_failed"
            };
            self.audit.record_syscall(
                kind,
                context.task_id,
                descriptor.number,
                result.status,
                frame.trace,
                reason,
            );
        }
        if !result.status.is_ok() {
            self.faults.record_error(
                Self::fault_kind_for_status(result.status),
                FaultSeverity::Warning,
                context.task_id,
                Self::error_for_status(result.status),
                Self::fault_phase(context.execution),
                frame.trace,
            );
        }
        result
    }

    fn dispatch_validated(
        &mut self,
        number: SyscallNumber,
        frame: SyscallFrame,
        context: DispatchContext,
    ) -> (result: SyscallResult)
        requires
            old(self).wf(),
            number == SyscallNumber::SysMemQuery ==> memory::total_of_kind(
                old(self)@.memory.regions,
                MemoryRegionKind::Usable,
            ) <= u64::MAX,
        ensures
            final(self).wf(),
            result == old(self)@.handler_result(number, frame, context),
            final(self)@ == old(self)@.after_handler(number, frame, context),
    {
        match number {
            SyscallNumber::SysInfo => self.sys_info(frame),
            SyscallNumber::SysYield => self.sys_yield(),
            SyscallNumber::SysExit => self.sys_exit(context.task_id),
            SyscallNumber::SysTime => SyscallResult::ok(self.scheduler.tick(), 0),
            SyscallNumber::SysTraceContext => {
                SyscallResult::ok(frame.trace.trace_id, frame.trace.span_id)
            },
            SyscallNumber::SysTaskSpawn => self.sys_task_spawn(frame, context),
            SyscallNumber::SysTaskJoin => SyscallResult::ok(frame.args[0], 0),
            SyscallNumber::SysTaskCancel => self.sys_task_cancel(frame),
            SyscallNumber::SysTaskStatus => self.sys_task_status(frame),
            SyscallNumber::SysMemMap | SyscallNumber::SysMemUnmap => self.sys_mem_range(frame),
            SyscallNumber::SysMemQuery => self.sys_mem_query(),
            SyscallNumber::SysMemShare => self.sys_mem_share(frame, context.task_id),
            SyscallNumber::SysMemSeal => self.sys_mem_seal(frame, context.task_id),
            SyscallNumber::SysDeviceList => SyscallResult::ok(self.devices.len() as u64, 0),
            SyscallNumber::SysDeviceOpen => self.sys_device_open(frame, context.capabilities),
            SyscallNumber::SysDeviceCall => self.sys_device_call(frame, context.capabilities),
            SyscallNumber::SysDeviceClose => SyscallResult::ok(frame.args[0], 0),
            SyscallNumber::SysModelList => SyscallResult::ok(0, 0),
            SyscallNumber::SysModelOpen => SyscallResult::ok(frame.args[0], 0),
            SyscallNumber::SysInfer => self.sys_infer(frame),
            SyscallNumber::SysMemoryQuery | SyscallNumber::SysMemoryPut => SyscallResult::ok(0, 0),
            SyscallNumber::SysCapDerive | SyscallNumber::SysCapRevoke => SyscallResult::ok(0, 0),
            SyscallNumber::SysAttest => SyscallResult::ok(syscall::alani_abi_version().packed(), 0),
            SyscallNumber::SysRandom => self.sys_random(frame),
            SyscallNumber::SysAuditAppend => SyscallResult::ok(self.audit.next_sequence(), 0),
            SyscallNumber::SysAuditQuery => SyscallResult::ok(self.audit.len() as u64, 0),
            SyscallNumber::SysAuditVerify => {
                SyscallResult::ok(self.audit.next_sequence().saturating_sub(1), 0)
            },
        }
    }

    fn sys_info(&self, frame: SyscallFrame) -> (result: SyscallResult)
        requires
            self.wf(),
        ensures
            forall|context: DispatchContext|
                result == #[trigger] self@.handler_result(SyscallNumber::SysInfo, frame, context),
    {
        let out = UserBuffer::new(
            frame.args[0],
            frame.args[1],
            #[verifier::truncate] (frame.args[2] as u32),
        );
        match self.memory.validate_user_buffer(out, BufferAccess::Write) {
            Ok(_) => SyscallResult::ok(
                syscall::alani_abi_version().packed(),
                SYSCALL_TABLE_INFO_SIZE,
            ),
            Err(error) => SyscallResult::error(error),
        }
    }

    fn sys_yield(&mut self) -> (result: SyscallResult)
        requires
            old(self).wf(),
        ensures
            final(self).wf(),
            final(self)@ == (KernelState { scheduler: old(self)@.scheduler.yielded(), ..old(self)@ }),
            result == match old(self)@.scheduler.yield_result() {
                Ok(Some(task_id)) => SyscallResult::spec_ok(task_id, 0),
                Ok(None) => SyscallResult::spec_ok(0, 0),
                Err(error) => SyscallResult::spec_error(error),
            },
    {
        match self.scheduler.yield_current() {
            Ok(Some(task_id)) => SyscallResult::ok(task_id, 0),
            Ok(None) => SyscallResult::ok(0, 0),
            Err(error) => SyscallResult::error(error),
        }
    }

    fn sys_exit(&mut self, task_id: TaskId) -> (result: SyscallResult)
        requires
            old(self).wf(),
        ensures
            final(self).wf(),
            final(self)@ == (KernelState {
                scheduler: old(self)@.scheduler.cancelled(task_id),
                ..old(self)@
            }),
            result == match old(self)@.scheduler.cancel_result(task_id) {
                Ok(_) => SyscallResult::spec_ok(task_id, 0),
                Err(error) => SyscallResult::spec_error(error),
            },
    {
        match self.scheduler.cancel(task_id) {
            Ok(_) => SyscallResult::ok(task_id, 0),
            Err(error) => SyscallResult::error(error),
        }
    }

    fn sys_task_spawn(&mut self, frame: SyscallFrame, context: DispatchContext) -> (result:
        SyscallResult)
        requires
            old(self).wf(),
        ensures
            final(self).wf(),
            result == old(self)@.handler_result(SyscallNumber::SysTaskSpawn, frame, context),
            final(self)@ == old(self)@.after_handler(SyscallNumber::SysTaskSpawn, frame, context),
    {
        if frame.args[1] != 0 {
            let manifest = UserBuffer::new(frame.args[0], frame.args[1], USER_BUFFER_READ);
            match self.memory.validate_user_buffer(manifest, BufferAccess::Read) {
                Ok(_) => {},
                Err(error) => {
                    return SyscallResult::error(error);
                },
            }
        }
        let priority: u8 = if frame.args[3] <= u64::from(u8::MAX) {
            frame.args[3] as u8
        } else {
            return SyscallResult::error(KernelError::InvalidArgument);
        };
        let priority: u8 = if priority == 0 {
            scheduler::DEFAULT_PRIORITY
        } else {
            priority
        };
        match self.scheduler.spawn(
            context.task_id,
            SchedulerClass::Runtime,
            priority,
            CapabilitySet::empty(),
            BudgetAccount::unlimited(),
        ) {
            Ok(task_id) => SyscallResult::ok(task_id, 0),
            Err(error) => SyscallResult::error(error),
        }
    }

    fn sys_task_cancel(&mut self, frame: SyscallFrame) -> (result: SyscallResult)
        requires
            old(self).wf(),
        ensures
            final(self).wf(),
            final(self)@ == (KernelState {
                scheduler: old(self)@.scheduler.cancelled(frame.args@[0]),
                ..old(self)@
            }),
            result == match old(self)@.scheduler.cancel_result(frame.args@[0]) {
                Ok(_) => SyscallResult::spec_ok(frame.args@[0], 0),
                Err(error) => SyscallResult::spec_error(error),
            },
    {
        match self.scheduler.cancel(frame.args[0]) {
            Ok(_) => SyscallResult::ok(frame.args[0], 0),
            Err(error) => SyscallResult::error(error),
        }
    }

    fn sys_task_status(&self, frame: SyscallFrame) -> (result: SyscallResult)
        requires
            self.wf(),
        ensures
            forall|context: DispatchContext|
                result == #[trigger] self@.handler_result(
                    SyscallNumber::SysTaskStatus,
                    frame,
                    context,
                ),
    {
        match self.scheduler.run_queue().get(frame.args[0]) {
            Some(task) => SyscallResult::ok(task.state as u64, task.context_switches),
            None => SyscallResult::error(KernelError::NotFound),
        }
    }

    fn sys_mem_range(&self, frame: SyscallFrame) -> (result: SyscallResult)
        requires
            self.wf(),
        ensures
            result == result_or_error(
                self@.memory.range_error(frame.args@[0], frame.args@[1]),
                frame.args@[0],
                frame.args@[1],
            ),
    {
        match self.memory.validate_user_range(frame.args[0], frame.args[1]) {
            Ok(()) => SyscallResult::ok(frame.args[0], frame.args[1]),
            Err(error) => SyscallResult::error(error),
        }
    }

    fn sys_mem_query(&self) -> (result: SyscallResult)
        requires
            self.wf(),
            memory::total_of_kind(self@.memory.regions, MemoryRegionKind::Usable) <= u64::MAX,
        ensures
            result == SyscallResult::spec_ok(
                memory::total_of_kind(self@.memory.regions, MemoryRegionKind::Usable) as u64,
                self@.memory.regions.len() as u64,
            ),
    {
        let stats = self.memory.stats();
        SyscallResult::ok(stats.usable_bytes, stats.region_count as u64)
    }

    fn sys_mem_share(&mut self, frame: SyscallFrame, task_id: TaskId) -> (result: SyscallResult)
        requires
            old(self).wf(),
        ensures
            final(self).wf(),
            forall|context: DispatchContext|
                context.task_id == task_id ==> result == #[trigger] old(self)@.handler_result(
                    SyscallNumber::SysMemShare,
                    frame,
                    context,
                ),
            forall|context: DispatchContext|
                context.task_id == task_id ==> final(self)@ == #[trigger] old(self)@.after_handler(
                    SyscallNumber::SysMemShare,
                    frame,
                    context,
                ),
    {
        let permissions = match MemoryPermissions::from_bits(
            #[verifier::truncate] (frame.args[2] as u32),
        ) {
            Ok(permissions) => permissions,
            Err(error) => {
                return SyscallResult::error(error);
            },
        };
        match self.memory.share_region(task_id, frame.args[0], frame.args[1], permissions) {
            Ok(handle) => SyscallResult::ok(handle.id, u64::from(handle.permissions)),
            Err(error) => SyscallResult::error(error),
        }
    }

    fn sys_mem_seal(&mut self, frame: SyscallFrame, task_id: TaskId) -> (result: SyscallResult)
        requires
            old(self).wf(),
        ensures
            final(self).wf(),
            final(self)@ == (KernelState {
                memory: old(self)@.memory.after_seal(frame.args@[0]),
                ..old(self)@
            }),
            result == if old(self)@.memory.is_shared(frame.args@[0]) {
                SyscallResult::spec_ok(frame.args@[0], 0)
            } else {
                SyscallResult::spec_error(KernelError::NotFound)
            },
    {
        let handle = SharedMemoryHandle { id: frame.args[0], owner_task: task_id, permissions: 0 };
        match self.memory.seal_shared_region(handle) {
            Ok(()) => SyscallResult::ok(frame.args[0], 0),
            Err(error) => SyscallResult::error(error),
        }
    }

    fn sys_device_open(&self, frame: SyscallFrame, capabilities: CapabilitySet) -> (result:
        SyscallResult)
        requires
            self.wf(),
        ensures
            result == match device::open_result(self@.devices, frame.args@[0], capabilities) {
                Ok(descriptor) => SyscallResult::spec_ok(descriptor.id, descriptor.class as u64),
                Err(error) => SyscallResult::spec_error(error),
            },
    {
        match self.devices.authorize_open(frame.args[0], capabilities) {
            Ok(descriptor) => SyscallResult::ok(descriptor.id, descriptor.class as u64),
            Err(error) => SyscallResult::error(error),
        }
    }

    fn sys_device_call(&self, frame: SyscallFrame, capabilities: CapabilitySet) -> (result:
        SyscallResult)
        requires
            self.wf(),
        ensures
            forall|context: DispatchContext|
                context.capabilities == capabilities ==> result == #[trigger] self@.handler_result(
                    SyscallNumber::SysDeviceCall,
                    frame,
                    context,
                ),
    {
        let operation = match DeviceOperation::from_raw(frame.args[1]) {
            Some(operation) => operation,
            None => {
                return SyscallResult::error(KernelError::InvalidArgument);
            },
        };
        match self.devices.authorize_call(
            frame.args[0],
            operation,
            capabilities,
            frame.args[3],
            frame.args[5],
        ) {
            Ok(_) => SyscallResult::ok(0, 0),
            Err(error) => SyscallResult::error(error),
        }
    }

    fn sys_infer(&self, frame: SyscallFrame) -> (result: SyscallResult)
        ensures
            result == if frame.args@[3] == 0 {
                SyscallResult::spec_error(KernelError::DeadlineExceeded)
            } else {
                SyscallResult::spec_ok(0, 0)
            },
    {
        if frame.args[3] == 0 {
            return SyscallResult::error(KernelError::DeadlineExceeded);
        }
        SyscallResult::ok(0, 0)
    }

    fn sys_random(&self, frame: SyscallFrame) -> (result: SyscallResult)
        requires
            self.wf(),
        ensures
            forall|context: DispatchContext|
                result == #[trigger] self@.handler_result(SyscallNumber::SysRandom, frame, context),
    {
        let out = UserBuffer::new(frame.args[0], frame.args[1], USER_BUFFER_WRITE);
        match self.memory.validate_user_buffer(out, BufferAccess::Write) {
            Ok(buffer) => SyscallResult::ok(0, buffer.len),
            Err(error) => SyscallResult::error(error),
        }
    }

    fn record_rejected_syscall(
        &mut self,
        frame: SyscallFrame,
        context: DispatchContext,
        error: KernelError,
    )
        requires
            old(self).wf(),
        ensures
            final(self).wf(),
            final(self)@ == old(self)@.after_rejection(frame, context, error),
    {
        let status = error.status();
        if let Some(descriptor) = self.syscalls.lookup(frame.number) {
            if let Some(kind) = descriptor.audit_event {
                self.audit.record_syscall(
                    kind,
                    context.task_id,
                    descriptor.number,
                    status,
                    frame.trace,
                    error.reason(),
                );
            } else if status == KernelStatus::PermissionDenied {
                self.audit.record_syscall(
                    AuditEventKind::SecurityDecision,
                    context.task_id,
                    descriptor.number,
                    status,
                    frame.trace,
                    error.reason(),
                );
            }
        }
        let kind = match error {
            KernelError::UnknownSyscall => FaultKind::InvalidSyscall,
            KernelError::MissingCapability | KernelError::PermissionDenied => {
                FaultKind::CapabilityDenied
            },
            _ => FaultKind::InvariantViolation,
        };
        let severity = if status == KernelStatus::PermissionDenied {
            FaultSeverity::Error
        } else {
            FaultSeverity::Warning
        };
        let phase = Self::fault_phase(context.execution);
        self.faults.record_error(kind, severity, context.task_id, error, phase, frame.trace);
    }

    fn fault_phase(execution: ExecutionContext) -> (phase: FaultPhase)
        ensures
            phase == spec_fault_phase(execution),
    {
        if execution == ExecutionContext::EarlyBoot {
            FaultPhase::Boot
        } else {
            FaultPhase::Runtime
        }
    }

    fn fault_kind_for_status(status: KernelStatus) -> (kind: FaultKind)
        ensures
            kind == spec_fault_kind_for_status(status),
    {
        match status {
            KernelStatus::PermissionDenied => FaultKind::CapabilityDenied,
            KernelStatus::InvalidArgument => FaultKind::InvariantViolation,
            KernelStatus::Busy | KernelStatus::DeadlineExceeded => FaultKind::InvariantViolation,
            KernelStatus::NotFound => FaultKind::InvariantViolation,
            KernelStatus::Internal => FaultKind::InvariantViolation,
            KernelStatus::Success => FaultKind::InvariantViolation,
        }
    }

    fn error_for_status(status: KernelStatus) -> (error: KernelError)
        ensures
            error == spec_error_for_status(status),
    {
        match status {
            KernelStatus::Success => KernelError::Internal,
            KernelStatus::InvalidArgument => KernelError::InvalidArgument,
            KernelStatus::PermissionDenied => KernelError::PermissionDenied,
            KernelStatus::NotFound => KernelError::NotFound,
            KernelStatus::Busy => KernelError::Busy,
            KernelStatus::DeadlineExceeded => KernelError::DeadlineExceeded,
            KernelStatus::Internal => KernelError::Internal,
        }
    }
}

impl Default for Kernel {
    fn default() -> (kernel: Self)
        ensures
            kernel.wf(),
            kernel@ == Self::spec_new(),
    {
        Self::new()
    }
}

/// What the laws ask of a kernel's state holds of every well-formed kernel.
pub proof fn law_well_formed_kernels_are_valid(kernel: Kernel)
    requires
        kernel.wf(),
    ensures
        kernel@.valid(),
{
}

/// A kernel that has completed no phase, whose allocator has not passed the
/// boot stage and whose run queue has room boots: every phase completes, the
/// allocator ends in its heap phase, and one more task exists, ready to run and
/// without authority.
pub proof fn law_boot_completes(state: KernelState)
    requires
        state.boot == 0,
        state.memory.phase == AllocatorPhase::Uninitialized || state.memory.phase
            == AllocatorPhase::BootBump,
        state.scheduler.spawn_error() is None,
    ensures
        state.boot_result() == Ok::<(), KernelError>(()),
        state.booted().boot == BOOT_PHASE_COUNT,
        state.booted().memory.phase == AllocatorPhase::Heap,
        state.booted().scheduler.tasks.len() == state.scheduler.tasks.len() + 1,
        state.booted().scheduler.tasks.last().state == scheduler::TaskState::Ready,
        state.booted().scheduler.tasks.last().capabilities@ == 0,
{
    capability::law_deny_by_default(capability::Capability::TaskSpawn);
}

/// Booting happens at most once: a kernel that booted refuses to boot again and
/// is left as it is.
pub proof fn law_boot_happens_once(state: KernelState)
    requires
        state.boot_result() is Ok,
    ensures
        state.booted().boot_result() == Err::<(), KernelError>(KernelError::InvalidState),
        state.booted().booted() == state.booted(),
{
}

/// Booting keeps a kernel valid and loses none of its tasks, map entries or
/// shared regions, whether or not it succeeds.
pub proof fn law_boot_preserves_the_kernel(state: KernelState)
    requires
        state.valid(),
    ensures
        state.booted().valid(),
        state.memory.kept_in(state.booted().memory),
        state.scheduler.kept_in(state.booted().scheduler),
        state.booted().devices == state.devices,
        state.booted().audit == state.audit,
        state.booted().faults == state.faults,
{
    scheduler::lemma_scheduler_step(
        state.scheduler,
        scheduler::SchedulerCall::Spawn {
            parent_id: 0,
            class: SchedulerClass::Runtime,
            priority: scheduler::DEFAULT_PRIORITY,
            capabilities: CapabilitySet::spec_empty(),
            budget: BudgetAccount::spec_unlimited(),
        },
    );
    memory::lemma_memory_step(
        state.memory,
        memory::MemoryCall::SetPhase { phase: state.memory.phase },
    );
}

/// A syscall is validated before anything else happens: one that is unknown,
/// not allowed in its context, or lacks its capability has no effect but on
/// the audit log and the fault history, whatever its arguments are.
pub proof fn law_rejected_syscalls_have_no_effect(
    state: KernelState,
    frame: SyscallFrame,
    context: DispatchContext,
)
    requires
        syscall::validated(frame.number, context) is Err,
    ensures
        ({
            let error = syscall::validated(frame.number, context)->Err_0;
            let after = state.after_syscall(frame, context);
            &&& state.syscall_result(frame, context) == SyscallResult::spec_error(error)
            &&& error == KernelError::UnknownSyscall || error == KernelError::Busy || error
                == KernelError::MissingCapability
            &&& after == (KernelState { audit: after.audit, faults: after.faults, ..state })
        }),
{
}

/// A caller that lacks the capability of a syscall is denied, and the denial
/// is the newest audit event, marked critical, and the newest fault.
pub proof fn law_denials_are_audited(
    state: KernelState,
    frame: SyscallFrame,
    context: DispatchContext,
    number: SyscallNumber,
    required: capability::Capability,
)
    requires
        frame.number == number.spec_code(),
        number.spec_descriptor().allowed_in(context.execution),
        number.spec_required_capability() == Some(required),
        !context.capabilities.has(required),
    ensures
        state.syscall_result(frame, context) == SyscallResult::spec_error(
            KernelError::MissingCapability,
        ),
        ({
            let event = state.after_syscall(frame, context).audit.events.last();
            &&& event.syscall == Some(number)
            &&& event.task_id == context.task_id
            &&& event.status == KernelStatus::PermissionDenied
            &&& event.severity == audit::AuditSeverity::Critical
            &&& event.trace == frame.trace
            &&& event.reason == KernelError::MissingCapability.spec_reason()
            &&& event.sequence == state.audit.next_sequence
        }),
        ({
            let fault = state.after_syscall(frame, context).faults.records.last();
            &&& fault.kind == FaultKind::CapabilityDenied
            &&& fault.severity == FaultSeverity::Error
            &&& fault.task_id == context.task_id
            &&& fault.reason == KernelError::MissingCapability.spec_reason()
            &&& fault.sequence == state.faults.next_sequence
        }),
{
    syscall::law_syscall_codes_round_trip(number);
}

/// Deny by default: a caller without any capability is denied every syscall
/// that needs one.
pub proof fn law_callers_without_authority_are_denied(
    state: KernelState,
    frame: SyscallFrame,
    context: DispatchContext,
    number: SyscallNumber,
)
    requires
        frame.number == number.spec_code(),
        number.spec_descriptor().allowed_in(context.execution),
        number.spec_required_capability() is Some,
        context.capabilities@ == 0,
    ensures
        state.syscall_result(frame, context).status == KernelStatus::PermissionDenied,
{
    let required = number.spec_required_capability().unwrap();
    capability::law_deny_by_default(required);
    law_denials_are_audited(state, frame, context, number, required);
}

/// A syscall number outside the table is reported as an invalid argument and
/// leaves a fault, but no audit event.
pub proof fn law_unknown_syscalls_are_reported(
    state: KernelState,
    frame: SyscallFrame,
    context: DispatchContext,
)
    requires
        forall|number: SyscallNumber| frame.number != #[trigger] number.spec_code(),
    ensures
        state.syscall_result(frame, context).status == KernelStatus::InvalidArgument,
        state.after_syscall(frame, context).audit == state.audit,
        ({
            let fault = state.after_syscall(frame, context).faults.records.last();
            &&& fault.kind == FaultKind::InvalidSyscall
            &&& fault.reason == KernelError::UnknownSyscall.spec_reason()
        }),
{
    syscall::law_raw_numbers_round_trip(frame.number);
    if let Some(number) = SyscallNumber::spec_from_raw(frame.number) {
        assert(frame.number == number.spec_code());
    }
}

/// A syscall that fails leaves exactly one fault, with its status, its caller,
/// its trace and the phase it came in; one that succeeds leaves none.
pub proof fn law_failures_leave_one_fault(
    state: KernelState,
    frame: SyscallFrame,
    context: DispatchContext,
)
    ensures
        ({
            let status = state.syscall_result(frame, context).status;
            let after = state.after_syscall(frame, context);
            &&& status == KernelStatus::Success ==> after.faults == state.faults
            &&& status != KernelStatus::Success ==> exists|fault: FaultRecord|
                {
                    &&& fault.status == status
                    &&& fault.task_id == context.task_id
                    &&& fault.trace == frame.trace
                    &&& fault.phase == spec_fault_phase(context.execution)
                    &&& after.faults == #[trigger] state.faults.recorded(fault)
                }
        }),
{
    let status = state.syscall_result(frame, context).status;
    let after = state.after_syscall(frame, context);
    if status != KernelStatus::Success {
        let fault = match syscall::validated(frame.number, context) {
            Err(error) => KernelState::rejection_fault(frame, context, error),
            Ok(_) => FaultRecord::spec_from_error(
                spec_fault_kind_for_status(status),
                FaultSeverity::Warning,
                context.task_id,
                0,
                spec_error_for_status(status),
                spec_fault_phase(context.execution),
                frame.trace,
            ),
        };
        assert(after.faults == state.faults.recorded(fault));
        assert(fault.status == status);
    }
}

/// An audited syscall leaves exactly one audit event, whether it is rejected,
/// fails or succeeds, with its outcome, its caller and its trace.
pub proof fn law_audited_syscalls_leave_one_event(
    state: KernelState,
    frame: SyscallFrame,
    context: DispatchContext,
    number: SyscallNumber,
)
    requires
        frame.number == number.spec_code(),
        number.spec_audit_event() is Some,
    ensures
        exists|event: AuditEvent|
            {
                &&& Some(event.kind) == number.spec_audit_event()
                &&& event.syscall == Some(number)
                &&& event.status == state.syscall_result(frame, context).status
                &&& event.severity == AuditEvent::severity_of(event.status)
                &&& event.task_id == context.task_id
                &&& event.trace == frame.trace
                &&& state.after_syscall(frame, context).audit == #[trigger] state.audit.appended(
                    event,
                )
            },
{
    syscall::law_syscall_codes_round_trip(number);
    let status = state.syscall_result(frame, context).status;
    let event = AuditEvent::spec_of_syscall(
        number.spec_audit_event().unwrap(),
        context.task_id,
        number,
        status,
        frame.trace,
        match syscall::validated(frame.number, context) {
            Err(error) => error.spec_reason(),
            Ok(_) => if status == KernelStatus::Success {
                "ok"
            } else {
                "syscall_failed"
            },
        },
    );
    assert(state.after_syscall(frame, context).audit == state.audit.appended(event));
}

/// No denial goes unrecorded: whatever is answered with a denial, by the table
/// or by a handler, leaves exactly one audit event, marked critical.
pub proof fn law_every_denial_is_audited(
    state: KernelState,
    frame: SyscallFrame,
    context: DispatchContext,
)
    requires
        state.valid(),
        state.syscall_result(frame, context).status == KernelStatus::PermissionDenied,
    ensures
        exists|event: AuditEvent|
            {
                &&& event.status == KernelStatus::PermissionDenied
                &&& event.severity == audit::AuditSeverity::Critical
                &&& event.task_id == context.task_id
                &&& event.trace == frame.trace
                &&& state.after_syscall(frame, context).audit == #[trigger] state.audit.appended(
                    event,
                )
            },
{
    let number = SyscallNumber::spec_from_raw(frame.number).unwrap();
    syscall::law_raw_numbers_round_trip(frame.number);
    if number.spec_audit_event() is Some {
        law_audited_syscalls_leave_one_event(state, frame, context, number);
    } else {
        let event = AuditEvent::spec_of_syscall(
            AuditEventKind::SecurityDecision,
            context.task_id,
            number,
            KernelStatus::PermissionDenied,
            frame.trace,
            KernelError::MissingCapability.spec_reason(),
        );
        assert(state.after_syscall(frame, context).audit == state.audit.appended(event));
    }
}

/// A syscall that is not an audited one leaves an audit event only when it is
/// refused for want of authority.
pub proof fn law_other_syscalls_leave_no_event(
    state: KernelState,
    frame: SyscallFrame,
    context: DispatchContext,
    number: SyscallNumber,
)
    requires
        frame.number == number.spec_code(),
        number.spec_audit_event() is None,
        syscall::validated(frame.number, context) != Err::<SyscallNumber, KernelError>(
            KernelError::MissingCapability,
        ),
    ensures
        state.after_syscall(frame, context).audit == state.audit,
{
    syscall::law_syscall_codes_round_trip(number);
}

/// A request to the kernel: a syscall and the caller it comes from.
pub struct SyscallRequest {
    pub frame: SyscallFrame,
    pub context: DispatchContext,
}

impl KernelState {
    /// The kernel after a sequence of syscalls.
    pub open spec fn after_syscalls(self, requests: Seq<SyscallRequest>) -> KernelState
        decreases requests.len(),
    {
        if requests.len() == 0 {
            self
        } else {
            self.after_syscalls(requests.drop_last()).after_syscall(
                requests.last().frame,
                requests.last().context,
            )
        }
    }

    /// Whether `later` still holds what syscalls preserve: the configuration,
    /// the boot progress, the devices, the memory map, the allocator phase and
    /// the limits on user memory are the same, every task and every shared
    /// region is still there with the authority it had, and the log and the
    /// history hold no fewer entries.
    pub open spec fn kept_in(self, later: KernelState) -> bool {
        &&& later.config == self.config
        &&& later.boot == self.boot
        &&& later.devices == self.devices
        &&& later.memory == (MemoryState { shared: later.memory.shared, ..self.memory })
        &&& self.memory.kept_in(later.memory)
        &&& self.scheduler.kept_in(later.scheduler)
        &&& self.audit.events.len() <= later.audit.events.len()
        &&& self.faults.records.len() <= later.faults.records.len()
    }
}

proof fn lemma_log_step(
    state: KernelState,
    frame: SyscallFrame,
    context: DispatchContext,
)
    requires
        state.valid(),
    ensures
        ({
            let after = state.after_syscall(frame, context);
            &&& after.audit.valid()
            &&& after.faults.valid()
            &&& state.audit.events.len() <= after.audit.events.len()
            &&& state.faults.records.len() <= after.faults.records.len()
        }),
{
    let after = state.after_syscall(frame, context);
    law_failures_leave_one_fault(state, frame, context);
    if after.faults != state.faults {
        let fault = choose|fault: FaultRecord|
            after.faults == #[trigger] state.faults.recorded(fault);
        fault::law_record_keeps_the_newest(state.faults, fault);
    }
    if after.audit != state.audit {
        let number = SyscallNumber::spec_from_raw(frame.number).unwrap();
        syscall::law_raw_numbers_round_trip(frame.number);
        let event = choose|event: AuditEvent| after.audit == #[trigger] state.audit.appended(event);
        if number.spec_audit_event() is Some {
            law_audited_syscalls_leave_one_event(state, frame, context, number);
        } else {
            assert(after.audit == state.audit.appended(
                AuditEvent::spec_of_syscall(
                    AuditEventKind::SecurityDecision,
                    context.task_id,
                    number,
                    KernelStatus::PermissionDenied,
                    frame.trace,
                    KernelError::MissingCapability.spec_reason(),
                ),
            ));
        }
        audit::law_append_keeps_the_newest(state.audit, event);
    }
}

proof fn lemma_handler_step(
    state: KernelState,
    number: SyscallNumber,
    frame: SyscallFrame,
    context: DispatchContext,
)
    requires
        state.valid(),
    ensures
        ({
            let after = state.after_handler(number, frame, context);
            &&& after.valid()
            &&& state.kept_in(after)
        }),
{
    let args = frame.args@;
    let spawn = scheduler::SchedulerCall::Spawn {
        parent_id: context.task_id,
        class: SchedulerClass::Runtime,
        priority: KernelState::requested_priority(frame),
        capabilities: CapabilitySet::spec_empty(),
        budget: BudgetAccount::spec_unlimited(),
    };
    let share = memory::MemoryCall::Share {
        owner_task: context.task_id,
        start: args[0],
        len: args[1],
        permissions: args[2] as u32,
    };
    match number {
        SyscallNumber::SysYield => {
            scheduler::lemma_scheduler_step(state.scheduler, scheduler::SchedulerCall::Yield);
        },
        SyscallNumber::SysExit => {
            scheduler::lemma_scheduler_step(
                state.scheduler,
                scheduler::SchedulerCall::Cancel { task_id: context.task_id },
            );
        },
        SyscallNumber::SysTaskSpawn => {
            scheduler::lemma_scheduler_step(state.scheduler, spawn);
        },
        SyscallNumber::SysTaskCancel => {
            scheduler::lemma_scheduler_step(
                state.scheduler,
                scheduler::SchedulerCall::Cancel { task_id: args[0] },
            );
        },
        SyscallNumber::SysMemShare => {
            memory::lemma_memory_step(state.memory, share);
        },
        SyscallNumber::SysMemSeal => {
            memory::lemma_memory_step(state.memory, memory::MemoryCall::Seal { id: args[0] });
        },
        _ => {},
    }
}

proof fn lemma_syscall_step(state: KernelState, frame: SyscallFrame, context: DispatchContext)
    requires
        state.valid(),
    ensures
        state.after_syscall(frame, context).valid(),
        state.kept_in(state.after_syscall(frame, context)),
{
    lemma_log_step(state, frame, context);
    if let Ok(number) = syscall::validated(frame.number, context) {
        lemma_handler_step(state, number, frame, context);
    }
}

/// Whatever syscalls are made, by whomever, the kernel stays valid and keeps
/// its configuration, devices, memory map and limits; no task or shared region
/// is lost, no task gains authority, and nothing sealed is unsealed.
pub proof fn law_syscalls_preserve_the_kernel(state: KernelState, requests: Seq<SyscallRequest>)
    requires
        state.valid(),
    ensures
        state.after_syscalls(requests).valid(),
        state.kept_in(state.after_syscalls(requests)),
    decreases requests.len(),
{
    if requests.len() > 0 {
        let before = state.after_syscalls(requests.drop_last());
        let after = state.after_syscalls(requests);
        law_syscalls_preserve_the_kernel(state, requests.drop_last());
        lemma_syscall_step(before, requests.last().frame, requests.last().context);
        assert forall|i: int| 0 <= i < state.memory.shared.len() implies memory::same_shared(
            #[trigger] state.memory.shared[i],
            after.memory.shared[i],
        ) by {
            assert(memory::same_shared(before.memory.shared[i], after.memory.shared[i]));
        }
        assert forall|i: int| 0 <= i < state.scheduler.tasks.len() implies scheduler::same_task(
            #[trigger] state.scheduler.tasks[i],
            after.scheduler.tasks[i],
        ) by {
            assert(scheduler::same_task(before.scheduler.tasks[i], after.scheduler.tasks[i]));
        }
    }
}

/// A kernel whose memory map holds only regions that end at addresses answers
/// every syscall, now and after any others.
pub proof fn law_every_syscall_is_answered(
    state: KernelState,
    requests: Seq<SyscallRequest>,
    frame: SyscallFrame,
    context: DispatchContext,
)
    requires
        state.valid(),
        memory::regions_fit(state.memory.regions),
    ensures
        state.after_syscalls(requests).syscall_defined(frame, context),
{
    law_syscalls_preserve_the_kernel(state, requests);
    memory::law_totals_fit(state.memory.regions, MemoryRegionKind::Usable);
}

/// Tasks that syscalls create have no authority, whatever authority their
/// creator has: every task beyond those that existed holds no capability.
pub proof fn law_new_tasks_have_no_authority(
    state: KernelState,
    requests: Seq<SyscallRequest>,
    i: int,
)
    requires
        state.valid(),
        state.scheduler.tasks.len() <= i < state.after_syscalls(requests).scheduler.tasks.len(),
    ensures
        state.after_syscalls(requests).scheduler.tasks[i].capabilities@ == 0,
    decreases requests.len(),
{
    let before = state.after_syscalls(requests.drop_last());
    let after = state.after_syscalls(requests);
    capability::law_deny_by_default(capability::Capability::TaskSpawn);
    law_syscalls_preserve_the_kernel(state, requests.drop_last());
    lemma_syscall_step(before, requests.last().frame, requests.last().context);
    if i < before.scheduler.tasks.len() {
        law_new_tasks_have_no_authority(state, requests.drop_last(), i);
        assert(scheduler::same_task(before.scheduler.tasks[i], after.scheduler.tasks[i]));
    } else {
        lemma_task_count(before, requests.last().frame, requests.last().context);
    }
}

/// Only a spawn adds a task, and it adds one without authority.
proof fn lemma_task_count(state: KernelState, frame: SyscallFrame, context: DispatchContext)
    requires
        state.valid(),
    ensures
        ({
            let tasks = state.after_syscall(frame, context).scheduler.tasks;
            ||| tasks.len() == state.scheduler.tasks.len()
            ||| tasks.len() == state.scheduler.tasks.len() + 1 && tasks.last().capabilities
                == CapabilitySet::spec_empty()
        }),
{
    scheduler::lemma_scheduler_step(state.scheduler, scheduler::SchedulerCall::Yield);
    scheduler::lemma_scheduler_step(
        state.scheduler,
        scheduler::SchedulerCall::Cancel { task_id: context.task_id },
    );
    scheduler::lemma_scheduler_step(
        state.scheduler,
        scheduler::SchedulerCall::Cancel { task_id: frame.args@[0] },
    );
}

/// What a successful share leaves: the range, found under the returned handle.
proof fn lemma_share_syscall(state: KernelState, share: SyscallRequest)
    requires
        state.valid(),
        share.frame.number == SyscallNumber::SysMemShare.spec_code(),
        state.syscall_result(share.frame, share.context).status == KernelStatus::Success,
    ensures
        ({
            let id = state.syscall_result(share.frame, share.context).value;
            let memory = state.after_syscall(share.frame, share.context).memory;
            &&& memory.is_shared(id)
            &&& memory.shared_with(id).start == share.frame.args@[0]
            &&& memory.shared_with(id).len == share.frame.args@[1]
            &&& memory.shared_with(id).handle.owner_task == share.context.task_id
        }),
{
    syscall::law_syscall_codes_round_trip(SyscallNumber::SysMemShare);
}

/// What a seal of a shared region returns and leaves.
proof fn lemma_seal_syscall(state: KernelState, seal: SyscallRequest)
    requires
        state.valid(),
        seal.frame.number == SyscallNumber::SysMemSeal.spec_code(),
        state.memory.is_shared(seal.frame.args@[0]),
        seal.context.execution == ExecutionContext::Task,
        seal.context.capabilities.has(capability::Capability::MemoryShare),
    ensures
        ({
            let id = seal.frame.args@[0];
            let memory = state.after_syscall(seal.frame, seal.context).memory;
            &&& state.syscall_result(seal.frame, seal.context) == SyscallResult::spec_ok(id, 0)
            &&& memory.is_shared(id)
            &&& memory.shared_with(id).sealed
        }),
{
    syscall::law_syscall_codes_round_trip(SyscallNumber::SysMemSeal);
}

/// A shared region is still there after further syscalls.
proof fn lemma_region_kept(state: KernelState, requests: Seq<SyscallRequest>, id: u64)
    requires
        state.valid(),
        state.memory.is_shared(id),
    ensures
        ({
            let after = state.after_syscalls(requests);
            &&& after.valid()
            &&& after.memory.is_shared(id)
            &&& memory::same_shared(state.memory.shared_with(id), after.memory.shared_with(id))
            &&& memory::valid_shared(after.memory.shared_with(id), id - 1)
        }),
{
    law_syscalls_preserve_the_kernel(state, requests);
    let after = state.after_syscalls(requests);
    assert(memory::same_shared(state.memory.shared[id - 1], after.memory.shared[id - 1]));
    assert(memory::valid_shared(after.memory.shared[id - 1], id - 1));
}

/// A range that a syscall shared can be sealed by a syscall with the handle
/// that came back, whatever syscalls come between; the region is then sealed
/// for good and grants no writes.
pub proof fn law_shared_memory_can_be_sealed(
    state: KernelState,
    share: SyscallRequest,
    between: Seq<SyscallRequest>,
    seal: SyscallRequest,
    later: Seq<SyscallRequest>,
)
    requires
        state.valid(),
        share.frame.number == SyscallNumber::SysMemShare.spec_code(),
        state.syscall_result(share.frame, share.context).status == KernelStatus::Success,
        seal.frame.number == SyscallNumber::SysMemSeal.spec_code(),
        seal.frame.args@[0] == state.syscall_result(share.frame, share.context).value,
        seal.context.execution == ExecutionContext::Task,
        seal.context.capabilities.has(capability::Capability::MemoryShare),
    ensures
        ({
            let id = state.syscall_result(share.frame, share.context).value;
            let shared = state.after_syscall(share.frame, share.context).after_syscalls(between);
            let last = shared.after_syscall(seal.frame, seal.context).after_syscalls(later);
            let region = last.memory.shared_with(id);
            &&& shared.syscall_result(seal.frame, seal.context) == SyscallResult::spec_ok(id, 0)
            &&& last.memory.is_shared(id)
            &&& region.start == share.frame.args@[0]
            &&& region.len == share.frame.args@[1]
            &&& region.handle.owner_task == share.context.task_id
            &&& region.sealed
            &&& !memory::permits(region.handle.permissions, memory::PERMISSION_WRITE)
        }),
{
    let id = state.syscall_result(share.frame, share.context).value;
    let first = state.after_syscall(share.frame, share.context);
    let shared = first.after_syscalls(between);
    let sealed = shared.after_syscall(seal.frame, seal.context);
    lemma_share_syscall(state, share);
    lemma_syscall_step(state, share.frame, share.context);
    lemma_region_kept(first, between, id);
    lemma_seal_syscall(shared, seal);
    lemma_syscall_step(shared, seal.frame, seal.context);
    assert(memory::same_shared(shared.memory.shared[id - 1], sealed.memory.shared[id - 1]));
    lemma_region_kept(sealed, later, id);
}

/// The task that boot spawns has no parent, belongs to the runtime services,
/// and runs at priority 32 without authority, ceiling or deadline.
pub proof fn law_boot_spawns_the_runtime(state: KernelState)
    requires
        state.scheduler.valid(),
        state.boot_result() is Ok,
    ensures
        ({
            let task = state.booted().scheduler.tasks.last();
            &&& state.booted().scheduler.tasks.drop_last() == state.scheduler.tasks
            &&& state.booted().scheduler.tasks.len() == state.scheduler.tasks.len() + 1
            &&& task.id == state.scheduler.next_task_id
            &&& task.parent_id == 0
            &&& task.class == SchedulerClass::Runtime
            &&& task.base_priority == 32
            &&& task.capabilities@ == 0
            &&& task.budget.max_ticks == 0
            &&& task.budget.deadline_tick == 0
            &&& state.booted().scheduler.tick == state.scheduler.tick
            &&& state.booted().scheduler.current == state.scheduler.current
        }),
{
    capability::law_deny_by_default(capability::Capability::TaskSpawn);
    assert(state.booted().scheduler.tasks.drop_last() =~= state.scheduler.tasks);
}

/// Boot stops where it fails: before the first phase if some are complete,
/// before the allocator phase with six complete if the allocator is too far
/// along, and before the last phase, with the heap ready and thirteen complete,
/// if no task can be spawned.
pub proof fn law_boot_stops_where_it_fails(state: KernelState)
    ensures
        ({
            let late = state.memory.phase == AllocatorPhase::Frame || state.memory.phase
                == AllocatorPhase::Heap;
            let full = state.scheduler.tasks.len() >= 64;
            let spent = state.scheduler.next_task_id == u64::MAX;
            &&& state.boot != 0 ==> {
                &&& state.boot_result() == Err::<(), KernelError>(KernelError::InvalidState)
                &&& state.booted() == state
            }
            &&& state.boot == 0 && late ==> {
                &&& state.boot_result() == Err::<(), KernelError>(KernelError::InvalidState)
                &&& state.booted() == (KernelState { boot: 6, ..state })
            }
            &&& state.boot == 0 && !late && spent ==> {
                &&& state.boot_result() == Err::<(), KernelError>(KernelError::Internal)
                &&& state.booted().boot == 13
                &&& state.booted().memory == (MemoryState {
                    phase: AllocatorPhase::Heap,
                    ..state.memory
                })
                &&& state.booted().scheduler == state.scheduler
            }
            &&& state.boot == 0 && !late && !spent && full ==> {
                &&& state.boot_result() == Err::<(), KernelError>(KernelError::CapacityExceeded)
                &&& state.booted().boot == 13
                &&& state.booted().memory == (MemoryState {
                    phase: AllocatorPhase::Heap,
                    ..state.memory
                })
                &&& state.booted().scheduler.tasks == state.scheduler.tasks
            }
            &&& state.boot == 0 && !late && !spent && !full ==> {
                &&& state.boot_result() == Ok::<(), KernelError>(())
                &&& state.booted().boot == 14
                &&& state.booted().memory == (MemoryState {
                    phase: AllocatorPhase::Heap,
                    ..state.memory
                })
            }
        }),
{
}

/// Which calls change what: yielding, exiting, spawning and cancelling touch
/// nothing but the scheduler, sharing and sealing nothing but shared memory,
/// and all other calls neither; the audit log and the fault history apart.
pub proof fn law_calls_change_only_their_own_subsystem(
    state: KernelState,
    frame: SyscallFrame,
    context: DispatchContext,
)
    ensures
        ({
            let after = state.after_syscall(frame, context);
            let number = frame.number;
            let about_tasks = number == 0x0001 || number == 0x0002 || number == 0x0100 || number
                == 0x0102;
            let about_sharing = number == 0x0203 || number == 0x0204;
            &&& after.config == state.config
            &&& after.boot == state.boot
            &&& after.devices == state.devices
            &&& !about_tasks ==> after.scheduler == state.scheduler
            &&& !about_sharing ==> after.memory == state.memory
            &&& after.memory == (MemoryState { shared: after.memory.shared, ..state.memory })
        }),
{
    syscall::law_raw_numbers_round_trip(frame.number);
}

/// The call for information wants a user buffer the kernel may write to, and
/// answers with the packed version 0.1.0 and the 32 bytes of the table record.
pub proof fn law_answer_to_info(state: KernelState, frame: SyscallFrame, context: DispatchContext)
    requires
        syscall::validated(frame.number, context) == Ok::<SyscallNumber, KernelError>(
            SyscallNumber::SysInfo,
        ),
    ensures
        ({
            let result = state.syscall_result(frame, context);
            let out = UserBuffer {
                ptr: frame.args@[0],
                len: frame.args@[1],
                flags: frame.args@[2] as u32,
                reserved: 0,
            };
            let error = state.memory.buffer_error(out, BufferAccess::Write);
            &&& error is None ==> result.status == KernelStatus::Success && result.value
                == 0x1_0000_0000 && result.detail == 32
            &&& error is Some ==> result == SyscallResult::spec_error(error.unwrap())
        }),
{
    syscall::law_packed_versions_can_be_unpacked(syscall::spec_abi_version());
}

/// A yield answers with the task that the scheduler selected, or zero when it
/// selected none, and the scheduler has yielded.
pub proof fn law_answer_to_yield(state: KernelState, frame: SyscallFrame, context: DispatchContext)
    requires
        syscall::validated(frame.number, context) == Ok::<SyscallNumber, KernelError>(
            SyscallNumber::SysYield,
        ),
    ensures
        ({
            let result = state.syscall_result(frame, context);
            let selected = state.scheduler.yield_result();
            &&& selected matches Ok(Some(id)) ==> result.status == KernelStatus::Success
                && result.value == id
            &&& selected matches Ok(None) ==> result.status == KernelStatus::Success && result.value
                == 0
            &&& selected matches Err(error) ==> result == SyscallResult::spec_error(error)
            &&& state.after_syscall(frame, context).scheduler == state.scheduler.yielded()
        }),
{
}

/// Exiting ends the calling task and cancelling the task asked for: it becomes
/// a zombie and the answer is its identifier, unless it is already exiting or
/// a zombie; a task that does not exist is not found.
pub proof fn law_answer_to_exit_and_cancel(
    state: KernelState,
    frame: SyscallFrame,
    context: DispatchContext,
    i: int,
)
    requires
        state.scheduler.valid(),
        syscall::validated(frame.number, context) == Ok::<SyscallNumber, KernelError>(
            SyscallNumber::SysExit,
        ) || syscall::validated(frame.number, context) == Ok::<SyscallNumber, KernelError>(
            SyscallNumber::SysTaskCancel,
        ),
    ensures
        ({
            let result = state.syscall_result(frame, context);
            let after = state.after_syscall(frame, context).scheduler;
            let id = if syscall::validated(frame.number, context) == Ok::<
                SyscallNumber,
                KernelError,
            >(SyscallNumber::SysExit) {
                context.task_id
            } else {
                frame.args@[0]
            };
            let tasks = state.scheduler.tasks;
            &&& after == state.scheduler.cancelled(id)
            &&& (forall|k: int| 0 <= k < tasks.len() ==> (#[trigger] tasks[k]).id != id)
                ==> result.status == KernelStatus::NotFound && after == state.scheduler
            &&& 0 <= i < tasks.len() && tasks[i].id == id ==> {
                let gone = tasks[i].state == scheduler::TaskState::Exiting || tasks[i].state
                    == scheduler::TaskState::Zombie;
                &&& gone ==> result.status == KernelStatus::InvalidArgument && after
                    == state.scheduler
                &&& !gone ==> {
                    &&& result == SyscallResult::spec_ok(id, 0)
                    &&& after.tasks.len() == tasks.len()
                    &&& after.tasks[i].state == scheduler::TaskState::Zombie
                    &&& after.tasks[i].id == id
                }
            }
        }),
{
    let id = if syscall::validated(frame.number, context) == Ok::<SyscallNumber, KernelError>(
        SyscallNumber::SysExit,
    ) {
        context.task_id
    } else {
        frame.args@[0]
    };
    let tasks = state.scheduler.tasks;
    if forall|k: int| 0 <= k < tasks.len() ==> (#[trigger] tasks[k]).id != id {
        scheduler::law_missing_tasks_are_not_found(
            state.scheduler,
            id,
            scheduler::TaskState::Zombie,
        );
    }
    if 0 <= i < tasks.len() && tasks[i].id == id {
        scheduler::law_cancelled_tasks_are_zombies(state.scheduler, i, i);
    }
}

/// The clock call answers with the tick, and the trace call with the trace and
/// span of the caller.
pub proof fn law_answer_to_time_and_trace(
    state: KernelState,
    frame: SyscallFrame,
    context: DispatchContext,
)
    ensures
        frame.number == 0x0003 ==> state.syscall_result(frame, context) == SyscallResult::spec_ok(
            state.scheduler.tick,
            0,
        ),
        frame.number == 0x0004 ==> state.syscall_result(frame, context) == SyscallResult::spec_ok(
            frame.trace.trace_id,
            frame.trace.span_id,
        ),
{
    syscall::law_register_values_are_stable(frame.number);
}

/// A spawn call wants a manifest the kernel may read, if it names one, and a
/// priority of at most 255, where zero stands for 32. As long as there is room
/// the answer is the identifier of a new, ready runtime task with the caller
/// as parent, without authority, ceiling or deadline.
pub proof fn law_answer_to_spawn(state: KernelState, frame: SyscallFrame, context: DispatchContext)
    requires
        state.scheduler.valid(),
        syscall::validated(frame.number, context) == Ok::<SyscallNumber, KernelError>(
            SyscallNumber::SysTaskSpawn,
        ),
    ensures
        ({
            let result = state.syscall_result(frame, context);
            let after = state.after_syscall(frame, context).scheduler;
            let args = frame.args@;
            let manifest = UserBuffer {
                ptr: args[0],
                len: args[1],
                flags: USER_BUFFER_READ,
                reserved: 0,
            };
            let unreadable = state.memory.buffer_error(manifest, BufferAccess::Read);
            let room = state.scheduler.tasks.len() < 64;
            let id = state.scheduler.next_task_id;
            &&& args[1] != 0 && unreadable is Some ==> result == SyscallResult::spec_error(
                unreadable.unwrap(),
            ) && after == state.scheduler
            &&& (args[1] == 0 || unreadable is None) && args[3] > 255 ==> result.status
                == KernelStatus::InvalidArgument && after == state.scheduler
            &&& (args[1] == 0 || unreadable is None) && args[3] <= 255 && id < u64::MAX ==> {
                &&& !room ==> result.status == KernelStatus::Busy && after.tasks
                    == state.scheduler.tasks
                &&& room ==> {
                    &&& result == SyscallResult::spec_ok(id, 0)
                    &&& after.tasks.len() == state.scheduler.tasks.len() + 1
                    &&& after.tasks.drop_last() == state.scheduler.tasks
                    &&& after.tasks.last().id == id
                    &&& after.tasks.last().parent_id == context.task_id
                    &&& after.tasks.last().class == SchedulerClass::Runtime
                    &&& after.tasks.last().base_priority == if args[3] == 0 {
                        32
                    } else {
                        args[3]
                    }
                    &&& after.tasks.last().state == scheduler::TaskState::Ready
                    &&& after.tasks.last().capabilities@ == 0
                    &&& after.tasks.last().budget.max_ticks == 0
                    &&& after.tasks.last().budget.deadline_tick == 0
                    &&& after.current == state.scheduler.current
                }
            }
        }),
{
    capability::law_deny_by_default(capability::Capability::TaskSpawn);
    let after = state.after_syscall(frame, context).scheduler;
    if after.tasks.len() > state.scheduler.tasks.len() {
        assert(after.tasks.drop_last() =~= state.scheduler.tasks);
    }
}

/// Asking after a task gives its state, as a number in the order of the
/// lifecycle, and how often it was selected; a task that does not exist is not
/// found.
pub proof fn law_answer_to_task_status(
    state: KernelState,
    frame: SyscallFrame,
    context: DispatchContext,
    i: int,
)
    requires
        state.scheduler.valid(),
        syscall::validated(frame.number, context) == Ok::<SyscallNumber, KernelError>(
            SyscallNumber::SysTaskStatus,
        ),
    ensures
        ({
            let result = state.syscall_result(frame, context);
            let tasks = state.scheduler.tasks;
            &&& (forall|k: int| 0 <= k < tasks.len() ==> (#[trigger] tasks[k]).id != frame.args@[0])
                ==> result.status == KernelStatus::NotFound
            &&& 0 <= i < tasks.len() && tasks[i].id == frame.args@[0] ==> {
                &&& result.status == KernelStatus::Success
                &&& result.detail == tasks[i].context_switches
                &&& result.value == match tasks[i].state {
                    scheduler::TaskState::New => 0u64,
                    scheduler::TaskState::Ready => 1,
                    scheduler::TaskState::Running => 2,
                    scheduler::TaskState::Blocked => 3,
                    scheduler::TaskState::Sleeping => 4,
                    scheduler::TaskState::Suspended => 5,
                    scheduler::TaskState::Exiting => 6,
                    scheduler::TaskState::Zombie => 7,
                }
            }
        }),
{
    scheduler::lemma_first_task(state.scheduler.tasks, frame.args@[0]);
}

/// Mapping and unmapping a range succeed exactly if the kernel accepts the
/// range from users, and answer with it.
pub proof fn law_answer_to_map_and_unmap(
    state: KernelState,
    frame: SyscallFrame,
    context: DispatchContext,
)
    requires
        syscall::validated(frame.number, context) == Ok::<SyscallNumber, KernelError>(
            SyscallNumber::SysMemMap,
        ) || syscall::validated(frame.number, context) == Ok::<SyscallNumber, KernelError>(
            SyscallNumber::SysMemUnmap,
        ),
    ensures
        ({
            let result = state.syscall_result(frame, context);
            let error = state.memory.range_error(frame.args@[0], frame.args@[1]);
            &&& error is None ==> result == SyscallResult::spec_ok(frame.args@[0], frame.args@[1])
            &&& error is Some ==> result == SyscallResult::spec_error(error.unwrap())
        }),
{
}

/// A memory query answers with the usable bytes and the number of regions of
/// the map.
pub proof fn law_answer_to_memory_query(
    state: KernelState,
    frame: SyscallFrame,
    context: DispatchContext,
)
    requires
        state.memory.valid(),
        memory::regions_fit(state.memory.regions),
        syscall::validated(frame.number, context) == Ok::<SyscallNumber, KernelError>(
            SyscallNumber::SysMemQuery,
        ),
    ensures
        ({
            let result = state.syscall_result(frame, context);
            &&& result.status == KernelStatus::Success
            &&& result.value == memory::total_of_kind(
                state.memory.regions,
                MemoryRegionKind::Usable,
            )
            &&& result.detail == state.memory.regions.len()
        }),
{
    memory::law_totals_fit(state.memory.regions, MemoryRegionKind::Usable);
}

/// A share call shares the range of its first two arguments for the caller,
/// with the permissions of the third, and answers with the identifier and
/// those permissions. Unknown permission bits are refused before anything else.
pub proof fn law_answer_to_share(state: KernelState, frame: SyscallFrame, context: DispatchContext)
    requires
        state.memory.valid(),
        syscall::validated(frame.number, context) == Ok::<SyscallNumber, KernelError>(
            SyscallNumber::SysMemShare,
        ),
    ensures
        ({
            let args = frame.args@;
            let permissions = args[2] as u32;
            let result = state.syscall_result(frame, context);
            let after = state.after_syscall(frame, context).memory;
            let shared = state.memory.share_result(
                context.task_id,
                args[0],
                args[1],
                permissions,
            );
            &&& permissions >= 64 ==> result.status == KernelStatus::InvalidArgument && after
                == state.memory
            &&& permissions < 64 ==> {
                &&& after == state.memory.after_share(
                    context.task_id,
                    args[0],
                    args[1],
                    permissions,
                )
                &&& shared matches Ok(handle) ==> result == SyscallResult::spec_ok(
                    handle.id,
                    permissions as u64,
                )
                &&& shared matches Err(error) ==> result == SyscallResult::spec_error(error)
            }
        }),
{
    memory::law_permission_bits_are_stable(frame.args@[2] as u32);
}

/// A seal call seals the region of its first argument, whoever shared it, and
/// answers with the identifier; an identifier that was not given out is not
/// found.
pub proof fn law_answer_to_seal(state: KernelState, frame: SyscallFrame, context: DispatchContext)
    requires
        syscall::validated(frame.number, context) == Ok::<SyscallNumber, KernelError>(
            SyscallNumber::SysMemSeal,
        ),
    ensures
        ({
            let id = frame.args@[0];
            let result = state.syscall_result(frame, context);
            let after = state.after_syscall(frame, context).memory;
            &&& 1 <= id <= state.memory.shared.len() ==> result == SyscallResult::spec_ok(id, 0)
                && after == state.memory.after_seal(id)
            &&& !(1 <= id <= state.memory.shared.len()) ==> result.status == KernelStatus::NotFound
                && after == state.memory
        }),
{
}

/// Listing devices answers with how many are registered.
pub proof fn law_answer_to_device_list(
    state: KernelState,
    frame: SyscallFrame,
    context: DispatchContext,
)
    requires
        device::devices_valid(state.devices),
        syscall::validated(frame.number, context) == Ok::<SyscallNumber, KernelError>(
            SyscallNumber::SysDeviceList,
        ),
    ensures
        state.syscall_result(frame, context).status == KernelStatus::Success,
        state.syscall_result(frame, context).value == state.devices.len(),
        state.syscall_result(frame, context).detail == 0,
{
}

/// Opening the device of the first argument answers with its identifier and
/// its class, as a number in the order of the classes, if the caller may open
/// it, and else with the reason why not.
pub proof fn law_answer_to_device_open(
    state: KernelState,
    frame: SyscallFrame,
    context: DispatchContext,
)
    requires
        syscall::validated(frame.number, context) == Ok::<SyscallNumber, KernelError>(
            SyscallNumber::SysDeviceOpen,
        ),
    ensures
        ({
            let result = state.syscall_result(frame, context);
            let opened = device::open_result(state.devices, frame.args@[0], context.capabilities);
            &&& opened matches Ok(descriptor) ==> {
                &&& result.status == KernelStatus::Success
                &&& result.value == frame.args@[0]
                &&& result.detail == match descriptor.class {
                    device::DeviceClass::Console => 0u64,
                    device::DeviceClass::Timer => 1,
                    device::DeviceClass::Block => 2,
                    device::DeviceClass::Entropy => 3,
                    device::DeviceClass::NetworkSim => 4,
                    device::DeviceClass::SensorSim => 5,
                    device::DeviceClass::Accelerator => 6,
                    device::DeviceClass::Memory => 7,
                    device::DeviceClass::AuditStorage => 8,
                }
            }
            &&& opened matches Err(error) ==> result == SyscallResult::spec_error(error)
        }),
{
    device::law_opened_devices_are_authorized(
        state.devices,
        frame.args@[0],
        context.capabilities,
    );
}

/// A device call names the device first and the operation second; the fourth
/// argument is the length of the input, the sixth that of the output. The
/// answer says whether the call may go through; an opcode that is none is an
/// invalid argument.
pub proof fn law_answer_to_device_call(
    state: KernelState,
    frame: SyscallFrame,
    context: DispatchContext,
    operation: DeviceOperation,
)
    requires
        syscall::validated(frame.number, context) == Ok::<SyscallNumber, KernelError>(
            SyscallNumber::SysDeviceCall,
        ),
    ensures
        ({
            let args = frame.args@;
            let result = state.syscall_result(frame, context);
            let called = device::call_result(
                state.devices,
                args[0],
                operation,
                context.capabilities,
                args[3],
                args[5],
            );
            &&& args[1] > 6 ==> result.status == KernelStatus::InvalidArgument
            &&& DeviceOperation::spec_from_raw(args[1]) == Some(operation) ==> {
                &&& called is Ok ==> result == SyscallResult::spec_ok(0, 0)
                &&& called matches Err(error) ==> result == SyscallResult::spec_error(error)
            }
        }),
{
}

/// Joining a task, closing a device and opening a model answer with what was
/// asked for; listing models, cognitive memory and capability calls with
/// nothing; attestation with the packed version 0.1.0.
pub proof fn law_answer_to_acknowledged_calls(
    state: KernelState,
    frame: SyscallFrame,
    context: DispatchContext,
)
    requires
        syscall::validated(frame.number, context) is Ok,
    ensures
        frame.number == 0x0101 || frame.number == 0x0303 || frame.number == 0x0401
            ==> state.syscall_result(frame, context) == SyscallResult::spec_ok(frame.args@[0], 0),
        frame.number == 0x0400 || frame.number == 0x0403 || frame.number == 0x0404 || frame.number
            == 0x0500 || frame.number == 0x0501 ==> state.syscall_result(frame, context)
            == SyscallResult::spec_ok(0, 0),
        frame.number == 0x0502 ==> state.syscall_result(frame, context) == SyscallResult::spec_ok(
            0x1_0000_0000,
            0,
        ),
{
    syscall::law_register_values_are_stable(frame.number);
}

/// Inference without a budget, the fourth argument, is past its deadline; with
/// one it is acknowledged.
pub proof fn law_answer_to_infer(state: KernelState, frame: SyscallFrame, context: DispatchContext)
    requires
        syscall::validated(frame.number, context) == Ok::<SyscallNumber, KernelError>(
            SyscallNumber::SysInfer,
        ),
    ensures
        frame.args@[3] == 0 ==> state.syscall_result(frame, context).status
            == KernelStatus::DeadlineExceeded,
        frame.args@[3] != 0 ==> state.syscall_result(frame, context) == SyscallResult::spec_ok(
            0,
            0,
        ),
{
}

/// Random bytes go to any range the kernel accepts from users, and the answer
/// says how many.
pub proof fn law_answer_to_random(state: KernelState, frame: SyscallFrame, context: DispatchContext)
    requires
        state.memory.valid(),
        syscall::validated(frame.number, context) == Ok::<SyscallNumber, KernelError>(
            SyscallNumber::SysRandom,
        ),
    ensures
        ({
            let result = state.syscall_result(frame, context);
            let error = state.memory.range_error(frame.args@[0], frame.args@[1]);
            &&& error is None ==> result == SyscallResult::spec_ok(0, frame.args@[1])
            &&& error is Some ==> result == SyscallResult::spec_error(error.unwrap())
        }),
{
    let out = UserBuffer {
        ptr: frame.args@[0],
        len: frame.args@[1],
        flags: USER_BUFFER_WRITE,
        reserved: 0,
    };
    memory::law_suitable_buffers_are_accepted(state.memory, out, BufferAccess::Write);
}

/// The audit calls speak of the log as it was before their own event: a query
/// counts the events held, a verification names the newest one's sequence
/// number, and an append names the number that its own event then carries.
pub proof fn law_answer_to_audit_calls(
    state: KernelState,
    frame: SyscallFrame,
    context: DispatchContext,
)
    requires
        state.audit.valid(),
        syscall::validated(frame.number, context) is Ok,
    ensures
        ({
            let result = state.syscall_result(frame, context);
            let events = state.audit.events;
            let after = state.after_syscall(frame, context).audit.events;
            &&& frame.number == 0x0600 ==> {
                &&& result.status == KernelStatus::Success
                &&& result.detail == 0
                &&& after.last().sequence == result.value
                &&& after.last().syscall == Some(SyscallNumber::SysAuditAppend)
            }
            &&& frame.number == 0x0601 ==> {
                &&& result.status == KernelStatus::Success
                &&& result.detail == 0
                &&& result.value == events.len()
            }
            &&& frame.number == 0x0602 ==> {
                &&& result.status == KernelStatus::Success
                &&& result.detail == 0
                &&& events.len() > 0 && state.audit.next_sequence > 0 ==> result.value
                    == events.last().sequence
                &&& state.audit.next_sequence == 0 ==> result.value == 0
                &&& state.audit.next_sequence > 0 ==> result.value == state.audit.next_sequence - 1
            }
        }),
{
    syscall::law_register_values_are_stable(frame.number);
}

/// What an audit event says of its call: why it was rejected, or whether it
/// went well; and its kind is that of the call, or a security decision if
/// a call that is not an audited one was denied.
pub proof fn law_events_say_what_happened(
    state: KernelState,
    frame: SyscallFrame,
    context: DispatchContext,
    number: SyscallNumber,
)
    requires
        frame.number == number.spec_code(),
        number.spec_audit_event() is Some || syscall::validated(frame.number, context) == Err::<
            SyscallNumber,
            KernelError,
        >(KernelError::MissingCapability),
    ensures
        ({
            let event = state.after_syscall(frame, context).audit.events.last();
            &&& event.syscall == Some(number)
            &&& event.kind == match number.spec_audit_event() {
                Some(kind) => kind,
                None => AuditEventKind::SecurityDecision,
            }
            &&& event.sequence == state.audit.next_sequence
            &&& syscall::validated(frame.number, context) matches Err(error) ==> event.reason
                == error.spec_reason()
            &&& syscall::validated(frame.number, context) is Ok ==> {
                &&& state.syscall_result(frame, context).status == KernelStatus::Success
                    ==> event.reason == "ok"
                &&& state.syscall_result(frame, context).status != KernelStatus::Success
                    ==> event.reason == "syscall_failed"
            }
        }),
{
    syscall::law_syscall_codes_round_trip(number);
}

/// What a fault says of a failed call. An unknown number is an invalid
/// syscall, a denial a denied capability, all else a violated expectation.
/// A denial by the table is an error, all else a warning. The reason is that
/// of the rejection, or the label of the status a handler failed with. The
/// phase is boot for calls in early boot, else runtime.
pub proof fn law_faults_say_what_happened(
    state: KernelState,
    frame: SyscallFrame,
    context: DispatchContext,
)
    requires
        state.syscall_result(frame, context).status != KernelStatus::Success,
    ensures
        ({
            let status = state.syscall_result(frame, context).status;
            let outcome = syscall::validated(frame.number, context);
            let fault = state.after_syscall(frame, context).faults.records.last();
            &&& fault.kind == if SyscallNumber::spec_from_raw(frame.number) is None {
                FaultKind::InvalidSyscall
            } else if status == KernelStatus::PermissionDenied {
                FaultKind::CapabilityDenied
            } else {
                FaultKind::InvariantViolation
            }
            &&& fault.severity == if outcome is Err && status == KernelStatus::PermissionDenied {
                FaultSeverity::Error
            } else {
                FaultSeverity::Warning
            }
            &&& fault.address == 0
            &&& fault.task_id == context.task_id
            &&& fault.status == status
            &&& fault.trace == frame.trace
            &&& fault.sequence == state.faults.next_sequence
            &&& context.execution == ExecutionContext::EarlyBoot ==> fault.phase == FaultPhase::Boot
            &&& context.execution != ExecutionContext::EarlyBoot ==> fault.phase
                == FaultPhase::Runtime
            &&& outcome matches Err(error) ==> fault.reason == error.spec_reason()
            &&& outcome is Ok ==> fault.reason == match status {
                KernelStatus::InvalidArgument => "invalid_argument",
                KernelStatus::PermissionDenied => "permission_denied",
                KernelStatus::NotFound => "not_found",
                KernelStatus::Busy => "busy",
                KernelStatus::DeadlineExceeded => "deadline_exceeded",
                KernelStatus::Internal => "internal",
                KernelStatus::Success => "internal",
            }
        }),
{
}

} // verus!
