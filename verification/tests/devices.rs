use alani_kernel::capability::{Capability, CapabilitySet};
use alani_kernel::device::{
    DeviceClass, DeviceDescriptor, DeviceLifecycle, DeviceOperation, DeviceRegistry, DmaPolicy,
    MAX_DEVICES,
};
use alani_kernel::error::KernelError;

fn console(id: u64) -> DeviceDescriptor {
    DeviceDescriptor {
        id,
        class: DeviceClass::Console,
        lifecycle: DeviceLifecycle::Configured,
        required_capabilities: CapabilitySet::single(Capability::DeviceCall),
        supported_operations: 1 << (DeviceOperation::Read as u32),
        max_input_len: 16,
        max_output_len: 32,
        dma_policy: DmaPolicy::NoDma,
    }
}

#[test]
fn opcodes_convert_both_ways() {
    let operations = [
        DeviceOperation::Query,
        DeviceOperation::Read,
        DeviceOperation::Write,
        DeviceOperation::Submit,
        DeviceOperation::Cancel,
        DeviceOperation::Reset,
        DeviceOperation::Health,
    ];
    for (raw, operation) in operations.iter().enumerate() {
        assert_eq!(DeviceOperation::from_raw(raw as u64), Some(*operation));
        assert_eq!(*operation as u64, raw as u64);
    }
    assert_eq!(DeviceOperation::from_raw(7), None);
    assert_eq!(DeviceOperation::from_raw(u64::MAX), None);
}

#[test]
fn supported_operations_are_a_mask() {
    let device = console(1);
    assert!(device.supports(DeviceOperation::Read));
    assert!(!device.supports(DeviceOperation::Write));
    assert!(device.is_available());
    assert!(!DeviceDescriptor::empty().is_available());
}

#[test]
fn registered_devices_are_found() {
    let mut registry = DeviceRegistry::new();
    assert!(registry.is_empty());
    assert_eq!(registry.register(console(0)), Err(KernelError::InvalidArgument));
    assert_eq!(registry.register(console(5)), Ok(()));
    assert_eq!(registry.register(console(5)), Err(KernelError::Duplicate));
    assert_eq!(registry.get(5), Some(console(5)));
    assert_eq!(registry.get(6), None);
    assert_eq!(registry.len(), 1);
}

#[test]
fn registry_of_devices_is_bounded() {
    let mut registry = DeviceRegistry::new();
    for id in 1..=MAX_DEVICES as u64 {
        registry.register(console(id)).unwrap();
    }
    assert_eq!(registry.register(console(1000)), Err(KernelError::CapacityExceeded));
    assert_eq!(registry.len(), MAX_DEVICES);
}

#[test]
fn opening_needs_authority_and_an_available_device() {
    let mut registry = DeviceRegistry::new();
    registry.register(console(1)).unwrap();
    registry
        .register(DeviceDescriptor { lifecycle: DeviceLifecycle::Removed, ..console(2) })
        .unwrap();
    let open = CapabilitySet::single(Capability::DeviceOpen);
    let both = open.with(Capability::DeviceCall);
    assert_eq!(
        registry.authorize_open(1, CapabilitySet::empty()),
        Err(KernelError::MissingCapability)
    );
    assert_eq!(registry.authorize_open(9, open), Err(KernelError::NotFound));
    assert_eq!(registry.authorize_open(2, open), Err(KernelError::Busy));
    assert_eq!(registry.authorize_open(1, open), Err(KernelError::MissingCapability));
    assert_eq!(registry.authorize_open(1, both), Ok(console(1)));
}

#[test]
fn calls_are_checked_in_order() {
    let mut registry = DeviceRegistry::new();
    registry.register(console(1)).unwrap();
    registry
        .register(DeviceDescriptor {
            required_capabilities: CapabilitySet::single(Capability::SecurityManage),
            ..console(2)
        })
        .unwrap();
    let call = CapabilitySet::single(Capability::DeviceCall);
    let read = DeviceOperation::Read;
    assert_eq!(
        registry.authorize_call(1, read, CapabilitySet::empty(), 0, 0),
        Err(KernelError::MissingCapability)
    );
    assert_eq!(registry.authorize_call(3, read, call, 0, 0), Err(KernelError::NotFound));
    assert_eq!(
        registry.authorize_call(1, DeviceOperation::Write, call, 0, 0),
        Err(KernelError::InvalidArgument)
    );
    assert_eq!(
        registry.authorize_call(2, read, call, 0, 0),
        Err(KernelError::MissingCapability)
    );
    assert_eq!(registry.authorize_call(1, read, call, 17, 0), Err(KernelError::BufferTooLarge));
    assert_eq!(registry.authorize_call(1, read, call, 0, 33), Err(KernelError::BufferTooLarge));
    assert_eq!(registry.authorize_call(1, read, call, 16, 32), Ok(console(1)));
}
