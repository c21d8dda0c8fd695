//! Versioned syscall table and ABI-safe syscall data structures.
//!
//! The dispatcher layer is table-driven: validation of syscall number,
//! execution context, and required capability happens before subsystem
//! handlers are reached.
use vstd::prelude::*;

use crate::audit::AuditEventKind;
use crate::capability::{Capability, CapabilitySet, TaskId};
use crate::error::{KernelError, KernelResult, KernelStatus};

verus! {

/// Maximum userspace buffer length accepted by default host-mode syscalls.
pub const DEFAULT_MAX_SYSCALL_BUFFER_SIZE: u64 = 16 * 1024 * 1024;

/// Buffer must be readable by the kernel.
pub const USER_BUFFER_READ: u32 = 1;

/// Buffer must be writable by the kernel.
pub const USER_BUFFER_WRITE: u32 = 2;

/// Buffer may be pinned instead of copied by a future implementation.
pub const USER_BUFFER_PINNABLE: u32 = 4;

/// All known [`UserBuffer`] flag bits.
pub const USER_BUFFER_KNOWN_FLAGS: u32 = 7;

/// ABI version structure used by kernel/user feature negotiation.
#[derive(Clone, Copy, Debug, Eq, PartialEq, Structural)]
pub struct AbiVersion {
    /// Major ABI version. Incompatible changes require a bump.
    pub major: u16,
    /// Minor ABI version. Backward-compatible additions require a bump.
    pub minor: u16,
    /// Patch ABI version.
    pub patch: u16,
    /// Reserved feature flags. Unknown bits must be ignored by readers.
    pub flags: u16,
}

impl AbiVersion {
    /// The version as one number, the major part in the highest sixteen bits.
    pub open spec fn spec_packed(self) -> u64 {
        (self.major * 0x1_0000_0000_0000 + self.minor * 0x1_0000_0000 + self.patch * 0x1_0000
            + self.flags) as u64
    }

    /// Encodes the version into a compact integer for register returns.
    pub fn packed(self) -> (packed: u64)
        ensures
            packed == self.spec_packed(),
            packed == self.major * 0x1_0000_0000_0000 + self.minor * 0x1_0000_0000 + self.patch
                * 0x1_0000 + self.flags,
    {
        let major: u64 = self.major as u64;
        let minor: u64 = self.minor as u64;
        let patch: u64 = self.patch as u64;
        let flags: u64 = self.flags as u64;
        assert(major < 0x1_0000 && minor < 0x1_0000 && patch < 0x1_0000 && flags < 0x1_0000 ==> (
        major << 48) | (minor << 32) | (patch << 16) | flags == major * 0x1_0000_0000_0000 + minor
            * 0x1_0000_0000 + patch * 0x1_0000 + flags) by (bit_vector);
        (major << 48) | (minor << 32) | (patch << 16) | flags
    }
}

/// The ABI version of this kernel.
pub open spec fn spec_abi_version() -> AbiVersion {
    AbiVersion { major: 0, minor: 1, patch: 0, flags: 0 }
}

/// Draft ABI version exposed by `sys_info`.
pub fn alani_abi_version() -> (version: AbiVersion)
    ensures
        version == spec_abi_version(),
{
    AbiVersion { major: 0, minor: 1, patch: 0, flags: 0 }
}

/// Version of the syscall descriptor table itself.
pub fn syscall_table_version() -> (version: AbiVersion)
    ensures
        version == (AbiVersion { major: 0, minor: 1, patch: 0, flags: 0 }),
{
    AbiVersion { major: 0, minor: 1, patch: 0, flags: 0 }
}

/// User buffer descriptor passed through syscall register arguments.
///
/// The pointer is represented as an integer because raw pointers and Rust
/// references are not stable ABI fields.
#[derive(Clone, Copy, Debug, Eq, PartialEq, Structural)]
pub struct UserBuffer {
    /// Userspace virtual address.
    pub ptr: u64,
    /// Buffer length in bytes.
    pub len: u64,
    /// Direction and pinning flags.
    pub flags: u32,
    /// Reserved for ABI evolution. Must be zero.
    pub reserved: u32,
}

impl UserBuffer {
    /// Whether a flag bit outside the known ones is set.
    pub open spec fn unknown_flags(self) -> bool {
        self.flags & !USER_BUFFER_KNOWN_FLAGS != 0
    }

    /// Creates a buffer descriptor with `reserved` set to zero.
    pub fn new(ptr: u64, len: u64, flags: u32) -> (buffer: Self)
        ensures
            buffer == (UserBuffer { ptr, len, flags, reserved: 0 }),
    {
        Self { ptr, len, flags, reserved: 0 }
    }

    /// Returns `true` when the descriptor contains reserved flag bits.
    pub fn has_unknown_flags(self) -> (unknown: bool)
        ensures
            unknown == self.unknown_flags(),
    {
        self.flags & !USER_BUFFER_KNOWN_FLAGS != 0
    }

    /// Returns `true` when the descriptor declares kernel-read access.
    pub fn is_readable(self) -> (readable: bool)
        ensures
            readable == (self.flags & USER_BUFFER_READ != 0),
    {
        self.flags & USER_BUFFER_READ != 0
    }

    /// Returns `true` when the descriptor declares kernel-write access.
    pub fn is_writable(self) -> (writable: bool)
        ensures
            writable == (self.flags & USER_BUFFER_WRITE != 0),
    {
        self.flags & USER_BUFFER_WRITE != 0
    }
}

/// Cross-component trace context propagated through syscall frames.
#[derive(Clone, Copy, Debug, Eq, PartialEq, Structural)]
pub struct TraceContext {
    /// Stable trace identifier.
    pub trace_id: u64,
    /// Current span identifier.
    pub span_id: u64,
    /// Parent span identifier, or zero when absent.
    pub parent_span_id: u64,
    /// Reserved trace flags.
    pub flags: u32,
    /// Reserved padding for ABI evolution.
    pub reserved: u32,
}

impl TraceContext {
    /// The context of callers without tracing.
    pub open spec fn spec_empty() -> TraceContext {
        TraceContext { trace_id: 0, span_id: 0, parent_span_id: 0, flags: 0, reserved: 0 }
    }

    /// Returns an empty context for callers without tracing.
    pub fn empty() -> (trace: Self)
        ensures
            trace == Self::spec_empty(),
    {
        Self { trace_id: 0, span_id: 0, parent_span_id: 0, flags: 0, reserved: 0 }
    }
}

impl Default for TraceContext {
    fn default() -> (trace: Self)
        ensures
            trace == Self::spec_empty(),
    {
        Self::empty()
    }
}

/// Budget descriptor carried by cognitive syscalls.
#[derive(Clone, Copy, Debug, Eq, PartialEq, Structural)]
pub struct InferenceBudget {
    /// Maximum output tokens allowed by policy.
    pub max_tokens: u32,
    /// Maximum compute units allowed by policy.
    pub max_compute_units: u32,
    /// Absolute deadline in monotonic nanoseconds, or zero when unset.
    pub deadline_ns: u64,
    /// Reserved flags for future schedulers.
    pub flags: u32,
    /// Reserved padding for ABI evolution.
    pub reserved: u32,
}

impl InferenceBudget {
    /// Returns `true` when this budget declares a bounded workload.
    pub fn is_bounded(self) -> (bounded: bool)
        ensures
            bounded == (self.max_tokens != 0 || self.max_compute_units != 0 || self.deadline_ns
                != 0),
    {
        self.max_tokens != 0 || self.max_compute_units != 0 || self.deadline_ns != 0
    }
}

/// Syscall groups of the syscall interface.
///
/// [`SyscallGroup::code`] gives the first syscall number of each group.
#[derive(Clone, Copy, Debug, Eq, PartialEq, Structural)]
pub enum SyscallGroup {
    /// System and versioning calls.
    System,
    /// Task lifecycle calls.
    Task,
    /// Memory mapping and sharing calls.
    Memory,
    /// Device mediation calls.
    Device,
    /// Cognitive model and memory calls.
    Cognition,
    /// Security and capability calls.
    Security,
    /// Audit calls.
    Audit,
    /// Debug and tracing calls.
    Debug,
}

impl SyscallGroup {
    /// The first number of each group; groups are 256 numbers apart.
    pub open spec fn spec_code(self) -> u16 {
        ((self as int) * 0x100) as u16
    }

    /// Returns the stable first syscall number of this group.
    pub fn code(self) -> (code: u16)
        ensures
            code == self.spec_code(),
    {
        match self {
            Self::System => 0x0000,
            Self::Task => 0x0100,
            Self::Memory => 0x0200,
            Self::Device => 0x0300,
            Self::Cognition => 0x0400,
            Self::Security => 0x0500,
            Self::Audit => 0x0600,
            Self::Debug => 0x0700,
        }
    }
}

/// Stable syscall numbers of the kernel and its near-term expansion table.
///
/// [`SyscallNumber::code`] gives the register value of each.
#[derive(Clone, Copy, Debug, Eq, PartialEq, Structural)]
pub enum SyscallNumber {
    /// Query ABI version, table version, and buffer limits.
    SysInfo,
    /// Cooperatively yield the current task.
    SysYield,
    /// Exit the current task.
    SysExit,
    /// Query monotonic time.
    SysTime,
    /// Create or update the current trace context.
    SysTraceContext,
    /// Spawn a task from a manifest buffer.
    SysTaskSpawn,
    /// Join a task.
    SysTaskJoin,
    /// Cancel a task.
    SysTaskCancel,
    /// Query task status.
    SysTaskStatus,
    /// Map a userspace memory range.
    SysMemMap,
    /// Unmap a userspace memory range.
    SysMemUnmap,
    /// Query memory statistics or a mapping.
    SysMemQuery,
    /// Share a userspace range.
    SysMemShare,
    /// Seal a shared memory handle.
    SysMemSeal,
    /// List devices.
    SysDeviceList,
    /// Open a device.
    SysDeviceOpen,
    /// Call a device operation.
    SysDeviceCall,
    /// Close a device.
    SysDeviceClose,
    /// List cognitive models.
    SysModelList,
    /// Open a cognitive model handle.
    SysModelOpen,
    /// Invoke deterministic model-device mediation.
    SysInfer,
    /// Query cognitive memory.
    SysMemoryQuery,
    /// Put a cognitive memory record.
    SysMemoryPut,
    /// Derive a child capability.
    SysCapDerive,
    /// Revoke a capability.
    SysCapRevoke,
    /// Query attestation material.
    SysAttest,
    /// Request kernel-mediated random bytes.
    SysRandom,
    /// Append an audit record.
    SysAuditAppend,
    /// Query audit records.
    SysAuditQuery,
    /// Verify audit chain ranges.
    SysAuditVerify,
}

/// Number of syscalls in the table.
pub const SYSCALL_COUNT: usize = 30;

/// The syscalls in the order of the descriptor table.
pub const SYSCALL_NUMBERS: [SyscallNumber; SYSCALL_COUNT] = [
    SyscallNumber::SysInfo,
    SyscallNumber::SysYield,
    SyscallNumber::SysExit,
    SyscallNumber::SysTime,
    SyscallNumber::SysTraceContext,
    SyscallNumber::SysTaskSpawn,
    SyscallNumber::SysTaskJoin,
    SyscallNumber::SysTaskCancel,
    SyscallNumber::SysTaskStatus,
    SyscallNumber::SysMemMap,
    SyscallNumber::SysMemUnmap,
    SyscallNumber::SysMemQuery,
    SyscallNumber::SysMemShare,
    SyscallNumber::SysMemSeal,
    SyscallNumber::SysDeviceList,
    SyscallNumber::SysDeviceOpen,
    SyscallNumber::SysDeviceCall,
    SyscallNumber::SysDeviceClose,
    SyscallNumber::SysModelList,
    SyscallNumber::SysModelOpen,
    SyscallNumber::SysInfer,
    SyscallNumber::SysMemoryQuery,
    SyscallNumber::SysMemoryPut,
    SyscallNumber::SysCapDerive,
    SyscallNumber::SysCapRevoke,
    SyscallNumber::SysAttest,
    SyscallNumber::SysRandom,
    SyscallNumber::SysAuditAppend,
    SyscallNumber::SysAuditQuery,
    SyscallNumber::SysAuditVerify,
];

impl SyscallNumber {
    /// The register value of each syscall.
    pub open spec fn spec_code(self) -> u32 {
        match self {
            SyscallNumber::SysInfo => 0x0000,
            SyscallNumber::SysYield => 0x0001,
            SyscallNumber::SysExit => 0x0002,
            SyscallNumber::SysTime => 0x0003,
            SyscallNumber::SysTraceContext => 0x0004,
            SyscallNumber::SysTaskSpawn => 0x0100,
            SyscallNumber::SysTaskJoin => 0x0101,
            SyscallNumber::SysTaskCancel => 0x0102,
            SyscallNumber::SysTaskStatus => 0x0103,
            SyscallNumber::SysMemMap => 0x0200,
            SyscallNumber::SysMemUnmap => 0x0201,
            SyscallNumber::SysMemQuery => 0x0202,
            SyscallNumber::SysMemShare => 0x0203,
            SyscallNumber::SysMemSeal => 0x0204,
            SyscallNumber::SysDeviceList => 0x0300,
            SyscallNumber::SysDeviceOpen => 0x0301,
            SyscallNumber::SysDeviceCall => 0x0302,
            SyscallNumber::SysDeviceClose => 0x0303,
            SyscallNumber::SysModelList => 0x0400,
            SyscallNumber::SysModelOpen => 0x0401,
            SyscallNumber::SysInfer => 0x0402,
            SyscallNumber::SysMemoryQuery => 0x0403,
            SyscallNumber::SysMemoryPut => 0x0404,
            SyscallNumber::SysCapDerive => 0x0500,
            SyscallNumber::SysCapRevoke => 0x0501,
            SyscallNumber::SysAttest => 0x0502,
            SyscallNumber::SysRandom => 0x0503,
            SyscallNumber::SysAuditAppend => 0x0600,
            SyscallNumber::SysAuditQuery => 0x0601,
            SyscallNumber::SysAuditVerify => 0x0602,
        }
    }

    /// The syscall with a register value, if there is one.
    pub open spec fn spec_from_raw(raw: u64) -> Option<SyscallNumber> {
        if exists|number: SyscallNumber| #[trigger] number.spec_code() == raw {
            Some(choose|number: SyscallNumber| #[trigger] number.spec_code() == raw)
        } else {
            None
        }
    }

    /// The name of each syscall.
    pub open spec fn spec_name(self) -> &'static str {
        match self {
            SyscallNumber::SysInfo => "sys_info",
            SyscallNumber::SysYield => "sys_yield",
            SyscallNumber::SysExit => "sys_exit",
            SyscallNumber::SysTime => "sys_time",
            SyscallNumber::SysTraceContext => "sys_trace_context",
            SyscallNumber::SysTaskSpawn => "sys_task_spawn",
            SyscallNumber::SysTaskJoin => "sys_task_join",
            SyscallNumber::SysTaskCancel => "sys_task_cancel",
            SyscallNumber::SysTaskStatus => "sys_task_status",
            SyscallNumber::SysMemMap => "sys_mem_map",
            SyscallNumber::SysMemUnmap => "sys_mem_unmap",
            SyscallNumber::SysMemQuery => "sys_mem_query",
            SyscallNumber::SysMemShare => "sys_mem_share",
            SyscallNumber::SysMemSeal => "sys_mem_seal",
            SyscallNumber::SysDeviceList => "sys_device_list",
            SyscallNumber::SysDeviceOpen => "sys_device_open",
            SyscallNumber::SysDeviceCall => "sys_device_call",
            SyscallNumber::SysDeviceClose => "sys_device_close",
            SyscallNumber::SysModelList => "sys_model_list",
            SyscallNumber::SysModelOpen => "sys_model_open",
            SyscallNumber::SysInfer => "sys_infer",
            SyscallNumber::SysMemoryQuery => "sys_memory_query",
            SyscallNumber::SysMemoryPut => "sys_memory_put",
            SyscallNumber::SysCapDerive => "sys_cap_derive",
            SyscallNumber::SysCapRevoke => "sys_cap_revoke",
            SyscallNumber::SysAttest => "sys_attest",
            SyscallNumber::SysRandom => "sys_random",
            SyscallNumber::SysAuditAppend => "sys_audit_append",
            SyscallNumber::SysAuditQuery => "sys_audit_query",
            SyscallNumber::SysAuditVerify => "sys_audit_verify",
        }
    }

    /// The capability a caller needs for each syscall, if any.
    pub open spec fn spec_required_capability(self) -> Option<Capability> {
        match self {
            SyscallNumber::SysTaskSpawn => Some(Capability::TaskSpawn),
            SyscallNumber::SysTaskJoin => Some(Capability::TaskManage),
            SyscallNumber::SysTaskCancel => Some(Capability::TaskManage),
            SyscallNumber::SysTaskStatus => Some(Capability::TaskManage),
            SyscallNumber::SysMemMap => Some(Capability::MemoryMap),
            SyscallNumber::SysMemUnmap => Some(Capability::MemoryMap),
            SyscallNumber::SysMemShare => Some(Capability::MemoryShare),
            SyscallNumber::SysMemSeal => Some(Capability::MemoryShare),
            SyscallNumber::SysDeviceList => Some(Capability::DeviceList),
            SyscallNumber::SysDeviceOpen => Some(Capability::DeviceOpen),
            SyscallNumber::SysDeviceCall => Some(Capability::DeviceCall),
            SyscallNumber::SysDeviceClose => Some(Capability::DeviceCall),
            SyscallNumber::SysModelOpen => Some(Capability::CognitionInfer),
            SyscallNumber::SysInfer => Some(Capability::CognitionInfer),
            SyscallNumber::SysMemoryQuery => Some(Capability::CognitionMemory),
            SyscallNumber::SysMemoryPut => Some(Capability::CognitionMemory),
            SyscallNumber::SysCapDerive => Some(Capability::SecurityManage),
            SyscallNumber::SysCapRevoke => Some(Capability::SecurityManage),
            SyscallNumber::SysAttest => Some(Capability::SecurityManage),
            SyscallNumber::SysAuditAppend => Some(Capability::AuditAppend),
            SyscallNumber::SysAuditQuery => Some(Capability::AuditQuery),
            SyscallNumber::SysAuditVerify => Some(Capability::AuditVerify),
            _ => None,
        }
    }

    /// The audit event each syscall leaves behind, if any.
    pub open spec fn spec_audit_event(self) -> Option<AuditEventKind> {
        match self {
            SyscallNumber::SysExit => Some(AuditEventKind::TaskStateChanged),
            SyscallNumber::SysTaskJoin => Some(AuditEventKind::TaskStateChanged),
            SyscallNumber::SysTaskCancel => Some(AuditEventKind::TaskStateChanged),
            SyscallNumber::SysTaskSpawn => Some(AuditEventKind::TaskSpawn),
            SyscallNumber::SysMemMap => Some(AuditEventKind::MemoryMap),
            SyscallNumber::SysMemUnmap => Some(AuditEventKind::MemoryMap),
            SyscallNumber::SysMemShare => Some(AuditEventKind::MemoryShare),
            SyscallNumber::SysMemSeal => Some(AuditEventKind::MemoryShare),
            SyscallNumber::SysDeviceOpen => Some(AuditEventKind::DeviceOpen),
            SyscallNumber::SysDeviceCall => Some(AuditEventKind::DeviceCall),
            SyscallNumber::SysDeviceClose => Some(AuditEventKind::DeviceCall),
            SyscallNumber::SysModelOpen => Some(AuditEventKind::CognitionInfer),
            SyscallNumber::SysInfer => Some(AuditEventKind::CognitionInfer),
            SyscallNumber::SysMemoryQuery => Some(AuditEventKind::CognitiveMemory),
            SyscallNumber::SysMemoryPut => Some(AuditEventKind::CognitiveMemory),
            SyscallNumber::SysCapDerive => Some(AuditEventKind::CapabilityChanged),
            SyscallNumber::SysCapRevoke => Some(AuditEventKind::CapabilityChanged),
            SyscallNumber::SysAttest => Some(AuditEventKind::SecurityDecision),
            SyscallNumber::SysAuditAppend => Some(AuditEventKind::AuditAppend),
            SyscallNumber::SysAuditQuery => Some(AuditEventKind::AuditQuery),
            SyscallNumber::SysAuditVerify => Some(AuditEventKind::AuditVerify),
            _ => None,
        }
    }

    /// Whether a syscall may run before tasks do and in interrupts: only those
    /// that report on the kernel or the trace without touching a task.
    pub open spec fn spec_context_free(self) -> bool {
        self == SyscallNumber::SysInfo || self == SyscallNumber::SysTime || self
            == SyscallNumber::SysTraceContext
    }

    /// The descriptor of each syscall.
    pub open spec fn spec_descriptor(self) -> SyscallDescriptor {
        SyscallDescriptor {
            number: self,
            name: self.spec_name(),
            required_capability: self.spec_required_capability(),
            audit_event: self.spec_audit_event(),
            early_boot_safe: self.spec_context_free(),
            interrupt_safe: self.spec_context_free(),
        }
    }

    /// Returns the stable register value of this syscall.
    pub fn code(self) -> (code: u32)
        ensures
            code == self.spec_code(),
    {
        match self {
            Self::SysInfo => 0x0000,
            Self::SysYield => 0x0001,
            Self::SysExit => 0x0002,
            Self::SysTime => 0x0003,
            Self::SysTraceContext => 0x0004,
            Self::SysTaskSpawn => 0x0100,
            Self::SysTaskJoin => 0x0101,
            Self::SysTaskCancel => 0x0102,
            Self::SysTaskStatus => 0x0103,
            Self::SysMemMap => 0x0200,
            Self::SysMemUnmap => 0x0201,
            Self::SysMemQuery => 0x0202,
            Self::SysMemShare => 0x0203,
            Self::SysMemSeal => 0x0204,
            Self::SysDeviceList => 0x0300,
            Self::SysDeviceOpen => 0x0301,
            Self::SysDeviceCall => 0x0302,
            Self::SysDeviceClose => 0x0303,
            Self::SysModelList => 0x0400,
            Self::SysModelOpen => 0x0401,
            Self::SysInfer => 0x0402,
            Self::SysMemoryQuery => 0x0403,
            Self::SysMemoryPut => 0x0404,
            Self::SysCapDerive => 0x0500,
            Self::SysCapRevoke => 0x0501,
            Self::SysAttest => 0x0502,
            Self::SysRandom => 0x0503,
            Self::SysAuditAppend => 0x0600,
            Self::SysAuditQuery => 0x0601,
            Self::SysAuditVerify => 0x0602,
        }
    }

    /// Converts a raw register value into a known syscall number.
    pub fn from_raw(raw: u64) -> (number: Option<Self>)
        ensures
            number == Self::spec_from_raw(raw),
            match number {
                Some(number) => number.spec_code() == raw,
                None => forall|other: SyscallNumber| #[trigger] other.spec_code() != raw,
            },
    {
        let number = match raw {
            0x0000 => Some(Self::SysInfo),
            0x0001 => Some(Self::SysYield),
            0x0002 => Some(Self::SysExit),
            0x0003 => Some(Self::SysTime),
            0x0004 => Some(Self::SysTraceContext),
            0x0100 => Some(Self::SysTaskSpawn),
            0x0101 => Some(Self::SysTaskJoin),
            0x0102 => Some(Self::SysTaskCancel),
            0x0103 => Some(Self::SysTaskStatus),
            0x0200 => Some(Self::SysMemMap),
            0x0201 => Some(Self::SysMemUnmap),
            0x0202 => Some(Self::SysMemQuery),
            0x0203 => Some(Self::SysMemShare),
            0x0204 => Some(Self::SysMemSeal),
            0x0300 => Some(Self::SysDeviceList),
            0x0301 => Some(Self::SysDeviceOpen),
            0x0302 => Some(Self::SysDeviceCall),
            0x0303 => Some(Self::SysDeviceClose),
            0x0400 => Some(Self::SysModelList),
            0x0401 => Some(Self::SysModelOpen),
            0x0402 => Some(Self::SysInfer),
            0x0403 => Some(Self::SysMemoryQuery),
            0x0404 => Some(Self::SysMemoryPut),
            0x0500 => Some(Self::SysCapDerive),
            0x0501 => Some(Self::SysCapRevoke),
            0x0502 => Some(Self::SysAttest),
            0x0503 => Some(Self::SysRandom),
            0x0600 => Some(Self::SysAuditAppend),
            0x0601 => Some(Self::SysAuditQuery),
            0x0602 => Some(Self::SysAuditVerify),
            _ => None,
        };
        proof {
            if let Some(found) = number {
                assert(found.spec_code() == raw);
                law_syscall_codes_are_distinct(found, Self::spec_from_raw(raw).unwrap());
            }
        }
        number
    }

    /// Returns the stable syscall name.
    pub fn name(self) -> (name: &'static str)
        ensures
            name == self.spec_name(),
    {
        match self {
            Self::SysInfo => "sys_info",
            Self::SysYield => "sys_yield",
            Self::SysExit => "sys_exit",
            Self::SysTime => "sys_time",
            Self::SysTraceContext => "sys_trace_context",
            Self::SysTaskSpawn => "sys_task_spawn",
            Self::SysTaskJoin => "sys_task_join",
            Self::SysTaskCancel => "sys_task_cancel",
            Self::SysTaskStatus => "sys_task_status",
            Self::SysMemMap => "sys_mem_map",
            Self::SysMemUnmap => "sys_mem_unmap",
            Self::SysMemQuery => "sys_mem_query",
            Self::SysMemShare => "sys_mem_share",
            Self::SysMemSeal => "sys_mem_seal",
            Self::SysDeviceList => "sys_device_list",
            Self::SysDeviceOpen => "sys_device_open",
            Self::SysDeviceCall => "sys_device_call",
            Self::SysDeviceClose => "sys_device_close",
            Self::SysModelList => "sys_model_list",
            Self::SysModelOpen => "sys_model_open",
            Self::SysInfer => "sys_infer",
            Self::SysMemoryQuery => "sys_memory_query",
            Self::SysMemoryPut => "sys_memory_put",
            Self::SysCapDerive => "sys_cap_derive",
            Self::SysCapRevoke => "sys_cap_revoke",
            Self::SysAttest => "sys_attest",
            Self::SysRandom => "sys_random",
            Self::SysAuditAppend => "sys_audit_append",
            Self::SysAuditQuery => "sys_audit_query",
            Self::SysAuditVerify => "sys_audit_verify",
        }
    }

    /// Returns the high-level group for this syscall.
    pub fn group(self) -> (group: SyscallGroup)
        ensures
            group.spec_code() == self.spec_code() - self.spec_code() % 0x100,
    {
        let code: u32 = self.code();
        assert(code < 0x1_0000 ==> code & 0xff00 == code - code % 0x100) by (bit_vector);
        match code & 0xff00 {
            0x0100 => SyscallGroup::Task,
            0x0200 => SyscallGroup::Memory,
            0x0300 => SyscallGroup::Device,
            0x0400 => SyscallGroup::Cognition,
            0x0500 => SyscallGroup::Security,
            0x0600 => SyscallGroup::Audit,
            0x0700 => SyscallGroup::Debug,
            _ => SyscallGroup::System,
        }
    }
}

/// Calling context used to reject unsafe early-boot or interrupt-time calls.
#[derive(Clone, Copy, Debug, Eq, PartialEq, Structural)]
pub enum ExecutionContext {
    /// The kernel is still in deterministic initialization.
    EarlyBoot,
    /// A normal task context is active.
    Task,
    /// Interrupt top-half context is active.
    Interrupt,
}

/// Syscall arguments captured from the architecture calling convention.
#[derive(Clone, Copy, Debug, Eq, PartialEq)]
pub struct SyscallFrame {
    /// Syscall number. On x86_64 this corresponds to `rax`.
    pub number: u64,
    /// Up to six integer arguments. On x86_64 these map to `rdi`, `rsi`,
    /// `rdx`, `r10`, `r8`, and `r9` by the syscall ABI.
    pub args: [u64; 6],
    /// Trace context associated with this call.
    pub trace: TraceContext,
}

impl SyscallFrame {
    /// Creates a frame with no trace context.
    pub fn new(number: SyscallNumber, args: [u64; 6]) -> (frame: Self)
        ensures
            frame.number == number.spec_code(),
            frame.args == args,
            frame.trace == TraceContext::spec_empty(),
            SyscallNumber::spec_from_raw(frame.number) == Some(number),
    {
        proof {
            law_syscall_codes_round_trip(number);
        }
        Self { number: number.code() as u64, args, trace: TraceContext::empty() }
    }

    /// Creates a frame from a raw syscall number.
    pub fn raw(number: u64, args: [u64; 6]) -> (frame: Self)
        ensures
            frame.number == number,
            frame.args == args,
            frame.trace == TraceContext::spec_empty(),
    {
        Self { number, args, trace: TraceContext::empty() }
    }
}

/// Caller metadata used by the dispatcher before touching subsystem state.
#[derive(Clone, Copy, Debug, Eq, PartialEq, Structural)]
pub struct DispatchContext {
    /// Task responsible for the call.
    pub task_id: TaskId,
    /// Capabilities already resolved for the task or syscall handle.
    pub capabilities: CapabilitySet,
    /// Current execution context.
    pub execution: ExecutionContext,
}

impl DispatchContext {
    /// Creates a task-context dispatch record.
    pub fn task(task_id: TaskId, capabilities: CapabilitySet) -> (context: Self)
        ensures
            context == (DispatchContext {
                task_id,
                capabilities,
                execution: ExecutionContext::Task,
            }),
    {
        Self { task_id, capabilities, execution: ExecutionContext::Task }
    }
}

/// Result register payload returned by the kernel dispatcher.
#[derive(Clone, Copy, Debug, Eq, PartialEq, Structural)]
pub struct SyscallResult {
    /// Stable ABI status.
    pub status: KernelStatus,
    /// Primary integer value or handle.
    pub value: u64,
    /// Secondary count, commonly bytes written.
    pub detail: u64,
}

impl SyscallResult {
    /// A successful result.
    pub open spec fn spec_ok(value: u64, detail: u64) -> SyscallResult {
        SyscallResult { status: KernelStatus::Success, value, detail }
    }

    /// A failed result, which carries its status and nothing else.
    pub open spec fn spec_error(error: KernelError) -> SyscallResult {
        SyscallResult { status: error.spec_status(), value: 0, detail: 0 }
    }

    /// Successful syscall result with a primary value and detail count.
    pub fn ok(value: u64, detail: u64) -> (result: Self)
        ensures
            result == Self::spec_ok(value, detail),
    {
        Self { status: KernelStatus::Success, value, detail }
    }

    /// Error syscall result converted from a typed kernel error.
    pub fn error(error: KernelError) -> (result: Self)
        ensures
            result == Self::spec_error(error),
    {
        Self { status: error.status(), value: 0, detail: 0 }
    }
}

/// Static descriptor for one syscall table entry.
#[derive(Clone, Copy, Debug, Eq, PartialEq)]
pub struct SyscallDescriptor {
    /// Stable syscall number.
    pub number: SyscallNumber,
    /// Stable syscall name.
    pub name: &'static str,
    /// Required capability, if any.
    pub required_capability: Option<Capability>,
    /// Audit event emitted for successful or failed authority-sensitive calls.
    pub audit_event: Option<AuditEventKind>,
    /// Whether the syscall may run during early boot.
    pub early_boot_safe: bool,
    /// Whether the syscall may run from interrupt context.
    pub interrupt_safe: bool,
}

impl SyscallDescriptor {
    /// Whether the descriptor may be invoked in a context.
    pub open spec fn allowed_in(self, context: ExecutionContext) -> bool {
        &&& context == ExecutionContext::EarlyBoot ==> self.early_boot_safe
        &&& context == ExecutionContext::Interrupt ==> self.interrupt_safe
    }

    /// Returns `true` when `context` is allowed to invoke the descriptor.
    pub fn allows_context(self, context: ExecutionContext) -> (allowed: bool)
        ensures
            allowed == self.allowed_in(context),
    {
        match context {
            ExecutionContext::EarlyBoot => self.early_boot_safe,
            ExecutionContext::Interrupt => self.interrupt_safe,
            ExecutionContext::Task => true,
        }
    }
}

/// Static syscall descriptor table.
pub fn syscall_descriptors() -> (table: &'static [SyscallDescriptor; SYSCALL_COUNT])
    ensures
        forall|i: int|
            0 <= i < SYSCALL_COUNT ==> #[trigger] table@[i]
                == SYSCALL_NUMBERS@[i].spec_descriptor(),
{
    &[
        SyscallDescriptor {
            number: SyscallNumber::SysInfo,
            name: "sys_info",
            required_capability: None,
            audit_event: None,
            early_boot_safe: true,
            interrupt_safe: true,
        },
        SyscallDescriptor {
            number: SyscallNumber::SysYield,
            name: "sys_yield",
            required_capability: None,
            audit_event: None,
            early_boot_safe: false,
            interrupt_safe: false,
        },
        SyscallDescriptor {
            number: SyscallNumber::SysExit,
            name: "sys_exit",
            required_capability: None,
            audit_event: Some(AuditEventKind::TaskStateChanged),
            early_boot_safe: false,
            interrupt_safe: false,
        },
        SyscallDescriptor {
            number: SyscallNumber::SysTime,
            name: "sys_time",
            required_capability: None,
            audit_event: None,
            early_boot_safe: true,
            interrupt_safe: true,
        },
        SyscallDescriptor {
            number: SyscallNumber::SysTraceContext,
            name: "sys_trace_context",
            required_capability: None,
            audit_event: None,
            early_boot_safe: true,
            interrupt_safe: true,
        },
        SyscallDescriptor {
            number: SyscallNumber::SysTaskSpawn,
            name: "sys_task_spawn",
            required_capability: Some(Capability::TaskSpawn),
            audit_event: Some(AuditEventKind::TaskSpawn),
            early_boot_safe: false,
            interrupt_safe: false,
        },
        SyscallDescriptor {
            number: SyscallNumber::SysTaskJoin,
            name: "sys_task_join",
            required_capability: Some(Capability::TaskManage),
            audit_event: Some(AuditEventKind::TaskStateChanged),
            early_boot_safe: false,
            interrupt_safe: false,
        },
        SyscallDescriptor {
            number: SyscallNumber::SysTaskCancel,
            name: "sys_task_cancel",
            required_capability: Some(Capability::TaskManage),
            audit_event: Some(AuditEventKind::TaskStateChanged),
            early_boot_safe: false,
            interrupt_safe: false,
        },
        SyscallDescriptor {
            number: SyscallNumber::SysTaskStatus,
            name: "sys_task_status",
            required_capability: Some(Capability::TaskManage),
            audit_event: None,
            early_boot_safe: false,
            interrupt_safe: false,
        },
        SyscallDescriptor {
            number: SyscallNumber::SysMemMap,
            name: "sys_mem_map",
            required_capability: Some(Capability::MemoryMap),
            audit_event: Some(AuditEventKind::MemoryMap),
            early_boot_safe: false,
            interrupt_safe: false,
        },
        SyscallDescriptor {
            number: SyscallNumber::SysMemUnmap,
            name: "sys_mem_unmap",
            required_capability: Some(Capability::MemoryMap),
            audit_event: Some(AuditEventKind::MemoryMap),
            early_boot_safe: false,
            interrupt_safe: false,
        },
        SyscallDescriptor {
            number: SyscallNumber::SysMemQuery,
            name: "sys_mem_query",
            required_capability: None,
            audit_event: None,
            early_boot_safe: false,
            interrupt_safe: false,
        },
        SyscallDescriptor {
            number: SyscallNumber::SysMemShare,
            name: "sys_mem_share",
            required_capability: Some(Capability::MemoryShare),
            audit_event: Some(AuditEventKind::MemoryShare),
            early_boot_safe: false,
            interrupt_safe: false,
        },
        SyscallDescriptor {
            number: SyscallNumber::SysMemSeal,
            name: "sys_mem_seal",
            required_capability: Some(Capability::MemoryShare),
            audit_event: Some(AuditEventKind::MemoryShare),
            early_boot_safe: false,
            interrupt_safe: false,
        },
        SyscallDescriptor {
            number: SyscallNumber::SysDeviceList,
            name: "sys_device_list",
            required_capability: Some(Capability::DeviceList),
            audit_event: None,
            early_boot_safe: false,
            interrupt_safe: false,
        },
        SyscallDescriptor {
            number: SyscallNumber::SysDeviceOpen,
            name: "sys_device_open",
            required_capability: Some(Capability::DeviceOpen),
            audit_event: Some(AuditEventKind::DeviceOpen),
            early_boot_safe: false,
            interrupt_safe: false,
        },
        SyscallDescriptor {
            number: SyscallNumber::SysDeviceCall,
            name: "sys_device_call",
            required_capability: Some(Capability::DeviceCall),
            audit_event: Some(AuditEventKind::DeviceCall),
            early_boot_safe: false,
            interrupt_safe: false,
        },
        SyscallDescriptor {
            number: SyscallNumber::SysDeviceClose,
            name: "sys_device_close",
            required_capability: Some(Capability::DeviceCall),
            audit_event: Some(AuditEventKind::DeviceCall),
            early_boot_safe: false,
            interrupt_safe: false,
        },
        SyscallDescriptor {
            number: SyscallNumber::SysModelList,
            name: "sys_model_list",
            required_capability: None,
            audit_event: None,
            early_boot_safe: false,
            interrupt_safe: false,
        },
        SyscallDescriptor {
            number: SyscallNumber::SysModelOpen,
            name: "sys_model_open",
            required_capability: Some(Capability::CognitionInfer),
            audit_event: Some(AuditEventKind::CognitionInfer),
            early_boot_safe: false,
            interrupt_safe: false,
        },
        SyscallDescriptor {
            number: SyscallNumber::SysInfer,
            name: "sys_infer",
            required_capability: Some(Capability::CognitionInfer),
            audit_event: Some(AuditEventKind::CognitionInfer),
            early_boot_safe: false,
            interrupt_safe: false,
        },
        SyscallDescriptor {
            number: SyscallNumber::SysMemoryQuery,
            name: "sys_memory_query",
            required_capability: Some(Capability::CognitionMemory),
            audit_event: Some(AuditEventKind::CognitiveMemory),
            early_boot_safe: false,
            interrupt_safe: false,
        },
        SyscallDescriptor {
            number: SyscallNumber::SysMemoryPut,
            name: "sys_memory_put",
            required_capability: Some(Capability::CognitionMemory),
            audit_event: Some(AuditEventKind::CognitiveMemory),
            early_boot_safe: false,
            interrupt_safe: false,
        },
        SyscallDescriptor {
            number: SyscallNumber::SysCapDerive,
            name: "sys_cap_derive",
            required_capability: Some(Capability::SecurityManage),
            audit_event: Some(AuditEventKind::CapabilityChanged),
            early_boot_safe: false,
            interrupt_safe: false,
        },
        SyscallDescriptor {
            number: SyscallNumber::SysCapRevoke,
            name: "sys_cap_revoke",
            required_capability: Some(Capability::SecurityManage),
            audit_event: Some(AuditEventKind::CapabilityChanged),
            early_boot_safe: false,
            interrupt_safe: false,
        },
        SyscallDescriptor {
            number: SyscallNumber::SysAttest,
            name: "sys_attest",
            required_capability: Some(Capability::SecurityManage),
            audit_event: Some(AuditEventKind::SecurityDecision),
            early_boot_safe: false,
            interrupt_safe: false,
        },
        SyscallDescriptor {
            number: SyscallNumber::SysRandom,
            name: "sys_random",
            required_capability: None,
            audit_event: None,
            early_boot_safe: false,
            interrupt_safe: false,
        },
        SyscallDescriptor {
            number: SyscallNumber::SysAuditAppend,
            name: "sys_audit_append",
            required_capability: Some(Capability::AuditAppend),
            audit_event: Some(AuditEventKind::AuditAppend),
            early_boot_safe: false,
            interrupt_safe: false,
        },
        SyscallDescriptor {
            number: SyscallNumber::SysAuditQuery,
            name: "sys_audit_query",
            required_capability: Some(Capability::AuditQuery),
            audit_event: Some(AuditEventKind::AuditQuery),
            early_boot_safe: false,
            interrupt_safe: false,
        },
        SyscallDescriptor {
            number: SyscallNumber::SysAuditVerify,
            name: "sys_audit_verify",
            required_capability: Some(Capability::AuditVerify),
            audit_event: Some(AuditEventKind::AuditVerify),
            early_boot_safe: false,
            interrupt_safe: false,
        },
    ]
}

/// Syscall table metadata returned by `sys_info` and host tests.
#[derive(Clone, Copy, Debug, Eq, PartialEq, Structural)]
pub struct SyscallTableInfo {
    /// Kernel/user ABI version.
    pub abi_version: AbiVersion,
    /// Syscall table version.
    pub table_version: AbiVersion,
    /// Maximum accepted user buffer length.
    pub max_buffer_size: u64,
    /// Number of descriptors in the table.
    pub descriptor_count: u32,
    /// Reserved field for feature bitmap expansion.
    pub features: u32,
}

/// Bytes that a [`SyscallTableInfo`] takes in a user buffer: two versions of
/// four 16-bit fields each, a 64-bit limit, and two 32-bit fields, without
/// padding.
pub const SYSCALL_TABLE_INFO_SIZE: u64 = 32;

impl SyscallTableInfo {
    /// Returns the default table information for this crate version.
    pub fn current() -> (info: Self)
        ensures
            info == (SyscallTableInfo {
                abi_version: spec_abi_version(),
                table_version: AbiVersion { major: 0, minor: 1, patch: 0, flags: 0 },
                max_buffer_size: DEFAULT_MAX_SYSCALL_BUFFER_SIZE,
                descriptor_count: 30,
                features: 0,
            }),
    {
        Self {
            abi_version: alani_abi_version(),
            table_version: syscall_table_version(),
            max_buffer_size: DEFAULT_MAX_SYSCALL_BUFFER_SIZE,
            descriptor_count: syscall_descriptors().len() as u32,
            features: 0,
        }
    }
}

/// What validation makes of a syscall: the number must be known, then the
/// execution context allowed, then the required capability held.
pub open spec fn validated(raw: u64, context: DispatchContext) -> Result<
    SyscallNumber,
    KernelError,
> {
    match SyscallNumber::spec_from_raw(raw) {
        None => Err(KernelError::UnknownSyscall),
        Some(number) => if !number.spec_descriptor().allowed_in(context.execution) {
            Err(KernelError::Busy)
        } else if number.spec_required_capability() matches Some(required)
            && !context.capabilities.has(required) {
            Err(KernelError::MissingCapability)
        } else {
            Ok(number)
        },
    }
}

/// Table-driven syscall validator.
#[derive(Clone, Copy, Debug, Default, Eq, PartialEq, Structural)]
pub struct SyscallDispatcher;

impl SyscallDispatcher {
    /// Looks up a syscall descriptor by raw number.
    pub fn lookup(&self, raw: u64) -> (found: Option<&'static SyscallDescriptor>)
        ensures
            match SyscallNumber::spec_from_raw(raw) {
                Some(number) => found == Some(&number.spec_descriptor()),
                None => found is None,
            },
    {
        let number = match SyscallNumber::from_raw(raw) {
            Some(number) => number,
            None => {
                return None;
            },
        };
        let table = syscall_descriptors();
        let mut index: usize = 0;
        while index < SYSCALL_COUNT
            invariant
                index <= SYSCALL_COUNT,
                forall|i: int|
                    0 <= i < SYSCALL_COUNT ==> #[trigger] table@[i]
                        == SYSCALL_NUMBERS@[i].spec_descriptor(),
                forall|i: int| 0 <= i < index ==> #[trigger] SYSCALL_NUMBERS@[i] != number,
                SyscallNumber::spec_from_raw(raw) == Some(number),
            decreases SYSCALL_COUNT - index,
        {
            if table[index].number == number {
                return Some(&table[index]);
            }
            assert(table@[index as int].number == SYSCALL_NUMBERS@[index as int]);
            index += 1;
        }
        proof {
            law_table_lists_every_syscall(number);
            assert(SYSCALL_NUMBERS@[number as int] == number);
        }
        None
    }

    /// Validates number, context, and capability before subsystem dispatch.
    pub fn validate(&self, frame: &SyscallFrame, context: DispatchContext) -> (result: KernelResult<
        &'static SyscallDescriptor,
    >)
        ensures
            match validated(frame.number, context) {
                Ok(number) => result == Ok::<&'static SyscallDescriptor, KernelError>(
                    &number.spec_descriptor(),
                ),
                Err(error) => result == Err::<&'static SyscallDescriptor, KernelError>(error),
            },
    {
        let descriptor = match self.lookup(frame.number) {
            Some(descriptor) => descriptor,
            None => {
                return Err(KernelError::UnknownSyscall);
            },
        };
        if !descriptor.allows_context(context.execution) {
            return Err(KernelError::Busy);
        }
        if let Some(required) = descriptor.required_capability {
            match context.capabilities.require(required) {
                Ok(()) => {},
                Err(error) => {
                    return Err(error);
                },
            }
        }
        Ok(descriptor)
    }
}

/// No two syscalls share a register value.
pub proof fn law_syscall_codes_are_distinct(a: SyscallNumber, b: SyscallNumber)
    requires
        a.spec_code() == b.spec_code(),
    ensures
        a == b,
{
}

/// Converting a syscall to its register value and back gives the syscall.
pub proof fn law_syscall_codes_round_trip(number: SyscallNumber)
    ensures
        SyscallNumber::spec_from_raw(number.spec_code() as u64) == Some(number),
{
    let raw = number.spec_code() as u64;
    assert(number.spec_code() == raw);
    law_syscall_codes_are_distinct(number, SyscallNumber::spec_from_raw(raw).unwrap());
}

/// A register value that converts to a syscall is that syscall's value.
pub proof fn law_raw_numbers_round_trip(raw: u64)
    ensures
        SyscallNumber::spec_from_raw(raw) matches Some(number) ==> number.spec_code() == raw,
{
}

/// The table lists every syscall, each at one place.
pub proof fn law_table_lists_every_syscall(number: SyscallNumber)
    ensures
        0 <= number as int,
        (number as int) < SYSCALL_COUNT,
        SYSCALL_NUMBERS@[number as int] == number,
        forall|i: int|
            0 <= i < SYSCALL_COUNT && #[trigger] SYSCALL_NUMBERS@[i] == number ==> i
                == number as int,
{
}

/// Groups start at different numbers, so a syscall belongs to one.
pub proof fn law_group_codes_are_distinct(a: SyscallGroup, b: SyscallGroup)
    requires
        a.spec_code() == b.spec_code(),
    ensures
        a == b,
{
}

/// Only syscalls that need no capability and leave no audit event may run
/// outside a task.
pub proof fn law_context_free_calls_need_no_authority(number: SyscallNumber)
    requires
        number.spec_context_free(),
    ensures
        number.spec_required_capability() is None,
        number.spec_audit_event() is None,
{
}

/// A caller without authority passes validation only for syscalls that need
/// none, in a context that allows them.
pub proof fn law_unprivileged_callers_pass_only_open_calls(raw: u64, context: DispatchContext)
    requires
        context.capabilities@ == 0,
    ensures
        validated(raw, context) matches Ok(number) ==> {
            &&& number.spec_code() == raw
            &&& number.spec_required_capability() is None
            &&& number.spec_descriptor().allowed_in(context.execution)
        },
{
    if let Some(number) = SyscallNumber::spec_from_raw(raw) {
        if let Some(required) = number.spec_required_capability() {
            crate::capability::law_deny_by_default(required);
        }
    }
}

/// The syscall behind each register value, and its name. No other value is
/// a syscall.
pub proof fn law_register_values_are_stable(raw: u64)
    ensures
        raw == 0x0000 ==> SyscallNumber::spec_from_raw(raw) == Some(SyscallNumber::SysInfo)
            && SyscallNumber::SysInfo.spec_name() == "sys_info",
        raw == 0x0001 ==> SyscallNumber::spec_from_raw(raw) == Some(SyscallNumber::SysYield)
            && SyscallNumber::SysYield.spec_name() == "sys_yield",
        raw == 0x0002 ==> SyscallNumber::spec_from_raw(raw) == Some(SyscallNumber::SysExit)
            && SyscallNumber::SysExit.spec_name() == "sys_exit",
        raw == 0x0003 ==> SyscallNumber::spec_from_raw(raw) == Some(SyscallNumber::SysTime)
            && SyscallNumber::SysTime.spec_name() == "sys_time",
        raw == 0x0004 ==> SyscallNumber::spec_from_raw(raw) == Some(SyscallNumber::SysTraceContext)
            && SyscallNumber::SysTraceContext.spec_name() == "sys_trace_context",
        raw == 0x0100 ==> SyscallNumber::spec_from_raw(raw) == Some(SyscallNumber::SysTaskSpawn)
            && SyscallNumber::SysTaskSpawn.spec_name() == "sys_task_spawn",
        raw == 0x0101 ==> SyscallNumber::spec_from_raw(raw) == Some(SyscallNumber::SysTaskJoin)
            && SyscallNumber::SysTaskJoin.spec_name() == "sys_task_join",
        raw == 0x0102 ==> SyscallNumber::spec_from_raw(raw) == Some(SyscallNumber::SysTaskCancel)
            && SyscallNumber::SysTaskCancel.spec_name() == "sys_task_cancel",
        raw == 0x0103 ==> SyscallNumber::spec_from_raw(raw) == Some(SyscallNumber::SysTaskStatus)
            && SyscallNumber::SysTaskStatus.spec_name() == "sys_task_status",
        raw == 0x0200 ==> SyscallNumber::spec_from_raw(raw) == Some(SyscallNumber::SysMemMap)
            && SyscallNumber::SysMemMap.spec_name() == "sys_mem_map",
        raw == 0x0201 ==> SyscallNumber::spec_from_raw(raw) == Some(SyscallNumber::SysMemUnmap)
            && SyscallNumber::SysMemUnmap.spec_name() == "sys_mem_unmap",
        raw == 0x0202 ==> SyscallNumber::spec_from_raw(raw) == Some(SyscallNumber::SysMemQuery)
            && SyscallNumber::SysMemQuery.spec_name() == "sys_mem_query",
        raw == 0x0203 ==> SyscallNumber::spec_from_raw(raw) == Some(SyscallNumber::SysMemShare)
            && SyscallNumber::SysMemShare.spec_name() == "sys_mem_share",
        raw == 0x0204 ==> SyscallNumber::spec_from_raw(raw) == Some(SyscallNumber::SysMemSeal)
            && SyscallNumber::SysMemSeal.spec_name() == "sys_mem_seal",
        raw == 0x0300 ==> SyscallNumber::spec_from_raw(raw) == Some(SyscallNumber::SysDeviceList)
            && SyscallNumber::SysDeviceList.spec_name() == "sys_device_list",
        raw == 0x0301 ==> SyscallNumber::spec_from_raw(raw) == Some(SyscallNumber::SysDeviceOpen)
            && SyscallNumber::SysDeviceOpen.spec_name() == "sys_device_open",
        raw == 0x0302 ==> SyscallNumber::spec_from_raw(raw) == Some(SyscallNumber::SysDeviceCall)
            && SyscallNumber::SysDeviceCall.spec_name() == "sys_device_call",
        raw == 0x0303 ==> SyscallNumber::spec_from_raw(raw) == Some(SyscallNumber::SysDeviceClose)
            && SyscallNumber::SysDeviceClose.spec_name() == "sys_device_close",
        raw == 0x0400 ==> SyscallNumber::spec_from_raw(raw) == Some(SyscallNumber::SysModelList)
            && SyscallNumber::SysModelList.spec_name() == "sys_model_list",
        raw == 0x0401 ==> SyscallNumber::spec_from_raw(raw) == Some(SyscallNumber::SysModelOpen)
            && SyscallNumber::SysModelOpen.spec_name() == "sys_model_open",
        raw == 0x0402 ==> SyscallNumber::spec_from_raw(raw) == Some(SyscallNumber::SysInfer)
            && SyscallNumber::SysInfer.spec_name() == "sys_infer",
        raw == 0x0403 ==> SyscallNumber::spec_from_raw(raw) == Some(SyscallNumber::SysMemoryQuery)
            && SyscallNumber::SysMemoryQuery.spec_name() == "sys_memory_query",
        raw == 0x0404 ==> SyscallNumber::spec_from_raw(raw) == Some(SyscallNumber::SysMemoryPut)
            && SyscallNumber::SysMemoryPut.spec_name() == "sys_memory_put",
        raw == 0x0500 ==> SyscallNumber::spec_from_raw(raw) == Some(SyscallNumber::SysCapDerive)
            && SyscallNumber::SysCapDerive.spec_name() == "sys_cap_derive",
        raw == 0x0501 ==> SyscallNumber::spec_from_raw(raw) == Some(SyscallNumber::SysCapRevoke)
            && SyscallNumber::SysCapRevoke.spec_name() == "sys_cap_revoke",
        raw == 0x0502 ==> SyscallNumber::spec_from_raw(raw) == Some(SyscallNumber::SysAttest)
            && SyscallNumber::SysAttest.spec_name() == "sys_attest",
        raw == 0x0503 ==> SyscallNumber::spec_from_raw(raw) == Some(SyscallNumber::SysRandom)
            && SyscallNumber::SysRandom.spec_name() == "sys_random",
        raw == 0x0600 ==> SyscallNumber::spec_from_raw(raw) == Some(SyscallNumber::SysAuditAppend)
            && SyscallNumber::SysAuditAppend.spec_name() == "sys_audit_append",
        raw == 0x0601 ==> SyscallNumber::spec_from_raw(raw) == Some(SyscallNumber::SysAuditQuery)
            && SyscallNumber::SysAuditQuery.spec_name() == "sys_audit_query",
        raw == 0x0602 ==> SyscallNumber::spec_from_raw(raw) == Some(SyscallNumber::SysAuditVerify)
            && SyscallNumber::SysAuditVerify.spec_name() == "sys_audit_verify",
        SyscallNumber::spec_from_raw(raw) is Some ==> {
            ||| raw <= 0x0004
            ||| 0x0100 <= raw <= 0x0103
            ||| 0x0200 <= raw <= 0x0204
            ||| 0x0300 <= raw <= 0x0303
            ||| 0x0400 <= raw <= 0x0404
            ||| 0x0500 <= raw <= 0x0503
            ||| 0x0600 <= raw <= 0x0602
        },
{
    law_syscall_codes_round_trip(SyscallNumber::SysInfo);
    law_syscall_codes_round_trip(SyscallNumber::SysYield);
    law_syscall_codes_round_trip(SyscallNumber::SysExit);
    law_syscall_codes_round_trip(SyscallNumber::SysTime);
    law_syscall_codes_round_trip(SyscallNumber::SysTraceContext);
    law_syscall_codes_round_trip(SyscallNumber::SysTaskSpawn);
    law_syscall_codes_round_trip(SyscallNumber::SysTaskJoin);
    law_syscall_codes_round_trip(SyscallNumber::SysTaskCancel);
    law_syscall_codes_round_trip(SyscallNumber::SysTaskStatus);
    law_syscall_codes_round_trip(SyscallNumber::SysMemMap);
    law_syscall_codes_round_trip(SyscallNumber::SysMemUnmap);
    law_syscall_codes_round_trip(SyscallNumber::SysMemQuery);
    law_syscall_codes_round_trip(SyscallNumber::SysMemShare);
    law_syscall_codes_round_trip(SyscallNumber::SysMemSeal);
    law_syscall_codes_round_trip(SyscallNumber::SysDeviceList);
    law_syscall_codes_round_trip(SyscallNumber::SysDeviceOpen);
    law_syscall_codes_round_trip(SyscallNumber::SysDeviceCall);
    law_syscall_codes_round_trip(SyscallNumber::SysDeviceClose);
    law_syscall_codes_round_trip(SyscallNumber::SysModelList);
    law_syscall_codes_round_trip(SyscallNumber::SysModelOpen);
    law_syscall_codes_round_trip(SyscallNumber::SysInfer);
    law_syscall_codes_round_trip(SyscallNumber::SysMemoryQuery);
    law_syscall_codes_round_trip(SyscallNumber::SysMemoryPut);
    law_syscall_codes_round_trip(SyscallNumber::SysCapDerive);
    law_syscall_codes_round_trip(SyscallNumber::SysCapRevoke);
    law_syscall_codes_round_trip(SyscallNumber::SysAttest);
    law_syscall_codes_round_trip(SyscallNumber::SysRandom);
    law_syscall_codes_round_trip(SyscallNumber::SysAuditAppend);
    law_syscall_codes_round_trip(SyscallNumber::SysAuditQuery);
    law_syscall_codes_round_trip(SyscallNumber::SysAuditVerify);
    law_raw_numbers_round_trip(raw);
}

/// The capability each syscall needs. A task that holds it passes validation,
/// whatever else it holds or lacks, and a task that does not is denied,
/// whatever else it holds. Spawning needs the right to spawn; joining,
/// cancelling and asking after tasks the right to manage them; mapping and
/// unmapping the right to map; sharing and sealing the right to share; devices
/// and audit the right for each kind of access; models the right to infer;
/// cognitive memory, and capabilities with attestation, their own.
pub proof fn law_tasks_need_the_capability_of_the_call(context: DispatchContext)
    requires
        context.execution == ExecutionContext::Task,
    ensures
        validated(0x0100, context) == if context.capabilities.has(Capability::TaskSpawn) {
            Ok::<SyscallNumber, KernelError>(SyscallNumber::SysTaskSpawn)
        } else {
            Err::<SyscallNumber, KernelError>(KernelError::MissingCapability)
        },
        validated(0x0101, context) == if context.capabilities.has(Capability::TaskManage) {
            Ok::<SyscallNumber, KernelError>(SyscallNumber::SysTaskJoin)
        } else {
            Err::<SyscallNumber, KernelError>(KernelError::MissingCapability)
        },
        validated(0x0102, context) == if context.capabilities.has(Capability::TaskManage) {
            Ok::<SyscallNumber, KernelError>(SyscallNumber::SysTaskCancel)
        } else {
            Err::<SyscallNumber, KernelError>(KernelError::MissingCapability)
        },
        validated(0x0103, context) == if context.capabilities.has(Capability::TaskManage) {
            Ok::<SyscallNumber, KernelError>(SyscallNumber::SysTaskStatus)
        } else {
            Err::<SyscallNumber, KernelError>(KernelError::MissingCapability)
        },
        validated(0x0200, context) == if context.capabilities.has(Capability::MemoryMap) {
            Ok::<SyscallNumber, KernelError>(SyscallNumber::SysMemMap)
        } else {
            Err::<SyscallNumber, KernelError>(KernelError::MissingCapability)
        },
        validated(0x0201, context) == if context.capabilities.has(Capability::MemoryMap) {
            Ok::<SyscallNumber, KernelError>(SyscallNumber::SysMemUnmap)
        } else {
            Err::<SyscallNumber, KernelError>(KernelError::MissingCapability)
        },
        validated(0x0203, context) == if context.capabilities.has(Capability::MemoryShare) {
            Ok::<SyscallNumber, KernelError>(SyscallNumber::SysMemShare)
        } else {
            Err::<SyscallNumber, KernelError>(KernelError::MissingCapability)
        },
        validated(0x0204, context) == if context.capabilities.has(Capability::MemoryShare) {
            Ok::<SyscallNumber, KernelError>(SyscallNumber::SysMemSeal)
        } else {
            Err::<SyscallNumber, KernelError>(KernelError::MissingCapability)
        },
        validated(0x0300, context) == if context.capabilities.has(Capability::DeviceList) {
            Ok::<SyscallNumber, KernelError>(SyscallNumber::SysDeviceList)
        } else {
            Err::<SyscallNumber, KernelError>(KernelError::MissingCapability)
        },
        validated(0x0301, context) == if context.capabilities.has(Capability::DeviceOpen) {
            Ok::<SyscallNumber, KernelError>(SyscallNumber::SysDeviceOpen)
        } else {
            Err::<SyscallNumber, KernelError>(KernelError::MissingCapability)
        },
        validated(0x0302, context) == if context.capabilities.has(Capability::DeviceCall) {
            Ok::<SyscallNumber, KernelError>(SyscallNumber::SysDeviceCall)
        } else {
            Err::<SyscallNumber, KernelError>(KernelError::MissingCapability)
        },
        validated(0x0303, context) == if context.capabilities.has(Capability::DeviceCall) {
            Ok::<SyscallNumber, KernelError>(SyscallNumber::SysDeviceClose)
        } else {
            Err::<SyscallNumber, KernelError>(KernelError::MissingCapability)
        },
        validated(0x0401, context) == if context.capabilities.has(Capability::CognitionInfer) {
            Ok::<SyscallNumber, KernelError>(SyscallNumber::SysModelOpen)
        } else {
            Err::<SyscallNumber, KernelError>(KernelError::MissingCapability)
        },
        validated(0x0402, context) == if context.capabilities.has(Capability::CognitionInfer) {
            Ok::<SyscallNumber, KernelError>(SyscallNumber::SysInfer)
        } else {
            Err::<SyscallNumber, KernelError>(KernelError::MissingCapability)
        },
        validated(0x0403, context) == if context.capabilities.has(Capability::CognitionMemory) {
            Ok::<SyscallNumber, KernelError>(SyscallNumber::SysMemoryQuery)
        } else {
            Err::<SyscallNumber, KernelError>(KernelError::MissingCapability)
        },
        validated(0x0404, context) == if context.capabilities.has(Capability::CognitionMemory) {
            Ok::<SyscallNumber, KernelError>(SyscallNumber::SysMemoryPut)
        } else {
            Err::<SyscallNumber, KernelError>(KernelError::MissingCapability)
        },
        validated(0x0500, context) == if context.capabilities.has(Capability::SecurityManage) {
            Ok::<SyscallNumber, KernelError>(SyscallNumber::SysCapDerive)
        } else {
            Err::<SyscallNumber, KernelError>(KernelError::MissingCapability)
        },
        validated(0x0501, context) == if context.capabilities.has(Capability::SecurityManage) {
            Ok::<SyscallNumber, KernelError>(SyscallNumber::SysCapRevoke)
        } else {
            Err::<SyscallNumber, KernelError>(KernelError::MissingCapability)
        },
        validated(0x0502, context) == if context.capabilities.has(Capability::SecurityManage) {
            Ok::<SyscallNumber, KernelError>(SyscallNumber::SysAttest)
        } else {
            Err::<SyscallNumber, KernelError>(KernelError::MissingCapability)
        },
        validated(0x0600, context) == if context.capabilities.has(Capability::AuditAppend) {
            Ok::<SyscallNumber, KernelError>(SyscallNumber::SysAuditAppend)
        } else {
            Err::<SyscallNumber, KernelError>(KernelError::MissingCapability)
        },
        validated(0x0601, context) == if context.capabilities.has(Capability::AuditQuery) {
            Ok::<SyscallNumber, KernelError>(SyscallNumber::SysAuditQuery)
        } else {
            Err::<SyscallNumber, KernelError>(KernelError::MissingCapability)
        },
        validated(0x0602, context) == if context.capabilities.has(Capability::AuditVerify) {
            Ok::<SyscallNumber, KernelError>(SyscallNumber::SysAuditVerify)
        } else {
            Err::<SyscallNumber, KernelError>(KernelError::MissingCapability)
        },
{
    law_register_values_are_stable(0x0100);
    law_register_values_are_stable(0x0101);
    law_register_values_are_stable(0x0102);
    law_register_values_are_stable(0x0103);
    law_register_values_are_stable(0x0200);
    law_register_values_are_stable(0x0201);
    law_register_values_are_stable(0x0203);
    law_register_values_are_stable(0x0204);
    law_register_values_are_stable(0x0300);
    law_register_values_are_stable(0x0301);
    law_register_values_are_stable(0x0302);
    law_register_values_are_stable(0x0303);
    law_register_values_are_stable(0x0401);
    law_register_values_are_stable(0x0402);
    law_register_values_are_stable(0x0403);
    law_register_values_are_stable(0x0404);
    law_register_values_are_stable(0x0500);
    law_register_values_are_stable(0x0501);
    law_register_values_are_stable(0x0502);
    law_register_values_are_stable(0x0600);
    law_register_values_are_stable(0x0601);
    law_register_values_are_stable(0x0602);
}

/// The syscalls that need no capability: every task passes.
pub proof fn law_open_calls_need_no_capability(context: DispatchContext)
    requires
        context.execution == ExecutionContext::Task,
    ensures
        validated(0x0000, context) == Ok::<SyscallNumber, KernelError>(SyscallNumber::SysInfo),
        validated(0x0001, context) == Ok::<SyscallNumber, KernelError>(SyscallNumber::SysYield),
        validated(0x0002, context) == Ok::<SyscallNumber, KernelError>(SyscallNumber::SysExit),
        validated(0x0003, context) == Ok::<SyscallNumber, KernelError>(SyscallNumber::SysTime),
        validated(0x0004, context) == Ok::<SyscallNumber, KernelError>(SyscallNumber::SysTraceContext),
        validated(0x0202, context) == Ok::<SyscallNumber, KernelError>(SyscallNumber::SysMemQuery),
        validated(0x0400, context) == Ok::<SyscallNumber, KernelError>(SyscallNumber::SysModelList),
        validated(0x0503, context) == Ok::<SyscallNumber, KernelError>(SyscallNumber::SysRandom),
{
    law_register_values_are_stable(0x0000);
    law_register_values_are_stable(0x0001);
    law_register_values_are_stable(0x0002);
    law_register_values_are_stable(0x0003);
    law_register_values_are_stable(0x0004);
    law_register_values_are_stable(0x0202);
    law_register_values_are_stable(0x0400);
    law_register_values_are_stable(0x0503);
}

/// Outside a task only the calls for information, time and trace context pass,
/// whoever makes them; any other known call is refused as busy, before its
/// capability is looked at.
pub proof fn law_few_calls_pass_outside_tasks(raw: u64, context: DispatchContext)
    requires
        context.execution == ExecutionContext::EarlyBoot || context.execution
            == ExecutionContext::Interrupt,
    ensures
        validated(raw, context) is Ok <==> raw == 0x0000 || raw == 0x0003 || raw == 0x0004,
        SyscallNumber::spec_from_raw(raw) is Some && raw != 0x0000 && raw != 0x0003 && raw != 0x0004
            ==> validated(raw, context) == Err::<SyscallNumber, KernelError>(KernelError::Busy),
{
    law_register_values_are_stable(raw);
    law_raw_numbers_round_trip(raw);
}

/// Whoever makes it and wherever, a value that is no syscall is unknown.
pub proof fn law_other_values_are_unknown(raw: u64, context: DispatchContext)
    ensures
        SyscallNumber::spec_from_raw(raw) is None <==> validated(raw, context) == Err::<
            SyscallNumber,
            KernelError,
        >(KernelError::UnknownSyscall),
{
}

/// Which calls leave which audit event, and which leave none: those that only
/// report, list or query, yielding, and random bytes.
pub proof fn law_audited_calls_by_event(number: SyscallNumber)
    ensures
        number.spec_audit_event() == Some(AuditEventKind::TaskSpawn) <==> number
            == SyscallNumber::SysTaskSpawn,
        number.spec_audit_event() == Some(AuditEventKind::TaskStateChanged) <==> {
            ||| number == SyscallNumber::SysExit
            ||| number == SyscallNumber::SysTaskJoin
            ||| number == SyscallNumber::SysTaskCancel
        },
        number.spec_audit_event() == Some(AuditEventKind::MemoryMap) <==> {
            ||| number == SyscallNumber::SysMemMap
            ||| number == SyscallNumber::SysMemUnmap
        },
        number.spec_audit_event() == Some(AuditEventKind::MemoryShare) <==> {
            ||| number == SyscallNumber::SysMemShare
            ||| number == SyscallNumber::SysMemSeal
        },
        number.spec_audit_event() == Some(AuditEventKind::DeviceOpen) <==> number
            == SyscallNumber::SysDeviceOpen,
        number.spec_audit_event() == Some(AuditEventKind::DeviceCall) <==> {
            ||| number == SyscallNumber::SysDeviceCall
            ||| number == SyscallNumber::SysDeviceClose
        },
        number.spec_audit_event() == Some(AuditEventKind::CognitionInfer) <==> {
            ||| number == SyscallNumber::SysModelOpen
            ||| number == SyscallNumber::SysInfer
        },
        number.spec_audit_event() == Some(AuditEventKind::CognitiveMemory) <==> {
            ||| number == SyscallNumber::SysMemoryQuery
            ||| number == SyscallNumber::SysMemoryPut
        },
        number.spec_audit_event() == Some(AuditEventKind::CapabilityChanged) <==> {
            ||| number == SyscallNumber::SysCapDerive
            ||| number == SyscallNumber::SysCapRevoke
        },
        number.spec_audit_event() == Some(AuditEventKind::SecurityDecision) <==> number
            == SyscallNumber::SysAttest,
        number.spec_audit_event() == Some(AuditEventKind::AuditAppend) <==> number
            == SyscallNumber::SysAuditAppend,
        number.spec_audit_event() == Some(AuditEventKind::AuditQuery) <==> number
            == SyscallNumber::SysAuditQuery,
        number.spec_audit_event() == Some(AuditEventKind::AuditVerify) <==> number
            == SyscallNumber::SysAuditVerify,
        number.spec_audit_event() != Some(AuditEventKind::Fault),
        number.spec_audit_event() is None <==> {
            ||| number == SyscallNumber::SysInfo
            ||| number == SyscallNumber::SysYield
            ||| number == SyscallNumber::SysTime
            ||| number == SyscallNumber::SysTraceContext
            ||| number == SyscallNumber::SysTaskStatus
            ||| number == SyscallNumber::SysMemQuery
            ||| number == SyscallNumber::SysDeviceList
            ||| number == SyscallNumber::SysModelList
            ||| number == SyscallNumber::SysRandom
        },
{
}

/// A descriptor says of its syscall what the table promises: its name, the
/// capability and the audit event, and where it may run. In a task every call
/// may.
pub proof fn law_descriptors_describe_their_call(number: SyscallNumber)
    ensures
        number.spec_descriptor().number == number,
        number.spec_descriptor().name == number.spec_name(),
        number.spec_descriptor().required_capability == number.spec_required_capability(),
        number.spec_descriptor().audit_event == number.spec_audit_event(),
        number.spec_descriptor().allowed_in(ExecutionContext::Task),
        number.spec_descriptor().allowed_in(ExecutionContext::EarlyBoot) <==> number
            == SyscallNumber::SysInfo || number == SyscallNumber::SysTime || number
            == SyscallNumber::SysTraceContext,
        number.spec_descriptor().allowed_in(ExecutionContext::Interrupt) <==> number
            == SyscallNumber::SysInfo || number == SyscallNumber::SysTime || number
            == SyscallNumber::SysTraceContext,
{
}

/// The groups, by the first number of each: a syscall's number is less than 256
/// above that of its group.
pub proof fn law_groups_start_at_stable_numbers(group: SyscallGroup)
    ensures
        group.spec_code() == 0x0000 <==> group == SyscallGroup::System,
        group.spec_code() == 0x0100 <==> group == SyscallGroup::Task,
        group.spec_code() == 0x0200 <==> group == SyscallGroup::Memory,
        group.spec_code() == 0x0300 <==> group == SyscallGroup::Device,
        group.spec_code() == 0x0400 <==> group == SyscallGroup::Cognition,
        group.spec_code() == 0x0500 <==> group == SyscallGroup::Security,
        group.spec_code() == 0x0600 <==> group == SyscallGroup::Audit,
        group.spec_code() == 0x0700 <==> group == SyscallGroup::Debug,
{
}

/// A packed version can be taken apart again, and packed versions are ordered
/// by major, then minor, then patch version.
pub proof fn law_packed_versions_can_be_unpacked(version: AbiVersion)
    ensures
        version.spec_packed() / 0x1_0000_0000_0000 == version.major,
        version.spec_packed() / 0x1_0000_0000 % 0x1_0000 == version.minor,
        version.spec_packed() / 0x1_0000 % 0x1_0000 == version.patch,
        version.spec_packed() % 0x1_0000 == version.flags,
        spec_abi_version().spec_packed() == 0x1_0000_0000,
{
}

/// A result is either a success that carries its values or a failure that
/// carries its status and nothing else.
pub proof fn law_results_carry_values_or_a_status(value: u64, detail: u64, error: KernelError)
    ensures
        SyscallResult::spec_ok(value, detail).status == KernelStatus::Success,
        SyscallResult::spec_ok(value, detail).value == value,
        SyscallResult::spec_ok(value, detail).detail == detail,
        SyscallResult::spec_error(error).status == error.spec_status(),
        SyscallResult::spec_error(error).status != KernelStatus::Success,
        SyscallResult::spec_error(error).value == 0,
        SyscallResult::spec_error(error).detail == 0,
{
}

/// The flags of a user buffer are the lowest three bits.
pub proof fn law_buffer_flags_are_stable(buffer: UserBuffer)
    ensures
        !buffer.unknown_flags() <==> buffer.flags < 8,
        buffer.flags & USER_BUFFER_READ != 0 <==> buffer.flags % 2 == 1,
        buffer.flags & USER_BUFFER_WRITE != 0 <==> buffer.flags / 2 % 2 == 1,
        buffer.flags & USER_BUFFER_PINNABLE != 0 <==> buffer.flags / 4 % 2 == 1,
{
    let flags = buffer.flags;
    assert({
        &&& flags & !7u32 == 0 <==> flags < 8
        &&& flags & 1u32 != 0 <==> flags % 2 == 1
        &&& flags & 2u32 != 0 <==> flags / 2 % 2 == 1
        &&& flags & 4u32 != 0 <==> flags / 4 % 2 == 1
    }) by (bit_vector);
}

} // verus!
