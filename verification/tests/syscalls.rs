use alani_kernel::capability::{Capability, CapabilitySet};
use alani_kernel::error::{KernelError, KernelStatus};
use alani_kernel::syscall::{
    alani_abi_version, syscall_descriptors, syscall_table_version, AbiVersion, DispatchContext,
    ExecutionContext, InferenceBudget, SyscallDispatcher, SyscallFrame, SyscallGroup,
    SyscallNumber, SyscallResult, SyscallTableInfo, TraceContext, UserBuffer, SYSCALL_COUNT,
    SYSCALL_NUMBERS, SYSCALL_TABLE_INFO_SIZE, USER_BUFFER_KNOWN_FLAGS, USER_BUFFER_READ,
    USER_BUFFER_WRITE,
};

#[test]
fn versions_pack_into_registers() {
    let version = AbiVersion { major: 1, minor: 2, patch: 3, flags: 4 };
    assert_eq!(version.packed(), 0x0001_0002_0003_0004);
    assert_eq!(alani_abi_version().packed(), 0x0000_0001_0000_0000);
    assert_eq!(syscall_table_version(), alani_abi_version());
}

#[test]
fn table_info_describes_the_table() {
    let info = SyscallTableInfo::current();
    assert_eq!(info.descriptor_count, 30);
    assert_eq!(info.max_buffer_size, 16 * 1024 * 1024);
    assert_eq!(info.features, 0);
    assert_eq!(info.abi_version, alani_abi_version());
    assert_eq!(
        std::mem::size_of::<SyscallTableInfo>() as u64,
        SYSCALL_TABLE_INFO_SIZE
    );
}

#[test]
fn syscall_codes_are_stable() {
    let codes: [u32; SYSCALL_COUNT] = [
        0x0000, 0x0001, 0x0002, 0x0003, 0x0004, 0x0100, 0x0101, 0x0102, 0x0103, 0x0200, 0x0201,
        0x0202, 0x0203, 0x0204, 0x0300, 0x0301, 0x0302, 0x0303, 0x0400, 0x0401, 0x0402, 0x0403,
        0x0404, 0x0500, 0x0501, 0x0502, 0x0503, 0x0600, 0x0601, 0x0602,
    ];
    for (index, number) in SYSCALL_NUMBERS.iter().enumerate() {
        assert_eq!(number.code(), codes[index]);
        assert_eq!(SyscallNumber::from_raw(codes[index] as u64), Some(*number));
    }
    assert_eq!(SyscallNumber::from_raw(0x0005), None);
    assert_eq!(SyscallNumber::from_raw(0x1_0000_0000), None);
}

#[test]
fn table_lists_each_syscall_once() {
    let table = syscall_descriptors();
    assert_eq!(table.len(), SYSCALL_COUNT);
    for (index, descriptor) in table.iter().enumerate() {
        assert_eq!(descriptor.number, SYSCALL_NUMBERS[index]);
        let same = table.iter().filter(|other| other.number == descriptor.number).count();
        assert_eq!(same, 1);
        assert_eq!(
            SyscallDispatcher.lookup(descriptor.number.code() as u64),
            Some(descriptor)
        );
    }
    assert_eq!(SyscallDispatcher.lookup(0xffff), None);
}

#[test]
fn groups_follow_the_code_ranges() {
    assert_eq!(SyscallNumber::SysInfo.group(), SyscallGroup::System);
    assert_eq!(SyscallNumber::SysTaskStatus.group().code(), 0x0100);
    for number in SYSCALL_NUMBERS {
        assert_eq!(number.group().code() as u32, number.code() & 0xff00);
    }
}

#[test]
fn buffer_flags_are_decoded() {
    let buffer = UserBuffer::new(1, 2, USER_BUFFER_READ);
    assert!(buffer.is_readable());
    assert!(!buffer.is_writable());
    assert!(!buffer.has_unknown_flags());
    assert_eq!(buffer.reserved, 0);
    assert!(UserBuffer::new(1, 2, USER_BUFFER_WRITE).is_writable());
    assert_eq!(USER_BUFFER_KNOWN_FLAGS, 7);
    assert!(UserBuffer::new(1, 2, 8).has_unknown_flags());
}

#[test]
fn results_carry_value_or_status() {
    let good = SyscallResult::ok(5, 6);
    assert_eq!((good.status, good.value, good.detail), (KernelStatus::Success, 5, 6));
    let bad = SyscallResult::error(KernelError::Sealed);
    assert_eq!(bad.status, KernelStatus::InvalidArgument);
    assert_eq!(bad.value, 0);
}

#[test]
fn traces_start_empty() {
    let frame = SyscallFrame::raw(0x0103, [1, 2, 3, 4, 5, 6]);
    assert_eq!(frame.trace, TraceContext::empty());
    assert_eq!(frame.args, [1, 2, 3, 4, 5, 6]);
    let named = SyscallFrame::new(SyscallNumber::SysTaskStatus, [1, 2, 3, 4, 5, 6]);
    assert_eq!(named.number, frame.number);
    assert_eq!(TraceContext::default(), TraceContext::empty());
}

#[test]
fn inference_budgets_may_be_bounded() {
    let unbounded = InferenceBudget {
        max_tokens: 0,
        max_compute_units: 0,
        deadline_ns: 0,
        flags: 0,
        reserved: 0,
    };
    assert!(!unbounded.is_bounded());
    assert!(InferenceBudget { max_tokens: 1, ..unbounded }.is_bounded());
    assert!(InferenceBudget { max_compute_units: 1, ..unbounded }.is_bounded());
    assert!(InferenceBudget { deadline_ns: 1, ..unbounded }.is_bounded());
    assert!(!InferenceBudget { flags: 1, ..unbounded }.is_bounded());
}

#[test]
fn validation_checks_number_then_context_then_capability() {
    let dispatcher = SyscallDispatcher;
    let denied = DispatchContext::task(1, CapabilitySet::empty());
    let allowed = DispatchContext::task(1, CapabilitySet::single(Capability::TaskSpawn));
    let early = DispatchContext { execution: ExecutionContext::EarlyBoot, ..denied };
    let spawn = SyscallFrame::new(SyscallNumber::SysTaskSpawn, [0; 6]);
    let unknown = SyscallFrame::raw(0x7777, [0; 6]);
    let info = SyscallFrame::new(SyscallNumber::SysInfo, [0; 6]);
    assert_eq!(dispatcher.validate(&unknown, early), Err(KernelError::UnknownSyscall));
    assert_eq!(dispatcher.validate(&spawn, early), Err(KernelError::Busy));
    assert_eq!(dispatcher.validate(&spawn, denied), Err(KernelError::MissingCapability));
    assert_eq!(
        dispatcher.validate(&spawn, allowed).unwrap().number,
        SyscallNumber::SysTaskSpawn
    );
    assert_eq!(dispatcher.validate(&info, early).unwrap().number, SyscallNumber::SysInfo);
}

#[test]
fn callers_without_authority_pass_only_open_calls() {
    let context = DispatchContext::task(1, CapabilitySet::empty());
    for number in SYSCALL_NUMBERS {
        let frame = SyscallFrame::new(number, [0; 6]);
        match SyscallDispatcher.validate(&frame, context) {
            Ok(descriptor) => assert_eq!(descriptor.required_capability, None),
            Err(error) => assert_eq!(error, KernelError::MissingCapability),
        }
    }
}
