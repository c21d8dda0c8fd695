use alani_kernel::capability::{
    Capability, CapabilityHandle, CapabilityRegistry, CapabilitySet, KNOWN_CAPABILITY_BITS,
    MAX_CAPABILITY_RECORDS,
};
use alani_kernel::error::KernelError;

#[test]
fn empty_set_denies_everything() {
    let set = CapabilitySet::empty();
    assert!(set.is_empty());
    assert_eq!(set.bits(), 0);
    assert!(!set.contains(Capability::TaskSpawn));
    assert_eq!(
        set.require(Capability::AuditVerify),
        Err(KernelError::MissingCapability)
    );
    assert_eq!(CapabilitySet::default(), set);
}

#[test]
fn set_masks_are_exact() {
    let set = CapabilitySet::single(Capability::TaskSpawn).with(Capability::MemoryMap);
    assert_eq!(
        set.bits(),
        Capability::TaskSpawn.bit() | Capability::MemoryMap.bit()
    );
    assert_eq!(Capability::TaskSpawn.bit(), 1);
    assert!(set.contains(Capability::TaskSpawn));
    assert!(!set.contains(Capability::DeviceCall));
    assert_eq!(set.require(Capability::MemoryMap), Ok(()));
    assert_eq!(
        set.intersect(CapabilitySet::single(Capability::MemoryMap)),
        CapabilitySet::single(Capability::MemoryMap)
    );
}

#[test]
fn unknown_capability_bits_are_rejected() {
    assert_eq!(KNOWN_CAPABILITY_BITS, 0x7fff);
    assert_eq!(
        CapabilitySet::from_bits(0x8000),
        Err(KernelError::ReservedBits)
    );
    assert_eq!(CapabilitySet::from_bits(0x7fff).unwrap().bits(), 0x7fff);
    assert_eq!(CapabilitySet::from_known_bits(0x21).bits(), 0x21);
}

#[test]
fn set_derivation_never_amplifies() {
    let held = CapabilitySet::single(Capability::DeviceOpen).with(Capability::DeviceCall);
    let part = CapabilitySet::single(Capability::DeviceCall);
    assert_eq!(held.derive(part), Ok(part));
    assert_eq!(part.derive(held), Err(KernelError::MissingCapability));
    assert!(held.contains_all(part));
    assert!(!part.contains_all(held));
}

#[test]
fn issued_handle_resolves_to_its_rights() {
    let mut registry = CapabilityRegistry::new();
    let rights = CapabilitySet::single(Capability::AuditQuery);
    let handle = registry.issue(9, rights).unwrap();
    assert_ne!(handle.id, 0);
    assert_eq!(handle.owner_task, 9);
    assert_eq!(registry.resolve(handle), Ok(rights));
    assert_eq!(
        registry.handle_contains(handle, Capability::AuditQuery),
        Ok(true)
    );
    assert_eq!(
        registry.handle_contains(handle, Capability::AuditAppend),
        Ok(false)
    );
}

#[test]
fn revoked_handle_stays_revoked() {
    let mut registry = CapabilityRegistry::new();
    let rights = CapabilitySet::single(Capability::AuditQuery);
    let handle = registry.issue(9, rights).unwrap();
    assert_eq!(registry.revoke(handle), Ok(()));
    assert!(registry.resolve(handle).is_err());
    let next = registry.issue(9, rights).unwrap();
    assert_ne!(next.id, handle.id);
    assert!(registry.resolve(handle).is_err());
    assert!(registry.revoke(handle).is_err());
    assert_eq!(registry.resolve(next), Ok(rights));
}

#[test]
fn zero_handle_never_resolves() {
    let mut registry = CapabilityRegistry::new();
    registry.issue(1, CapabilitySet::empty().with(Capability::TaskManage)).unwrap();
    assert!(registry.resolve(CapabilityHandle::invalid()).is_err());
}

#[test]
fn stale_generation_does_not_resolve() {
    let mut registry = CapabilityRegistry::new();
    let handle = registry.issue(1, CapabilitySet::single(Capability::TaskManage)).unwrap();
    let forged = CapabilityHandle { generation: handle.generation + 1, ..handle };
    assert!(registry.resolve(forged).is_err());
    assert!(registry.resolve(handle).is_ok());
}

#[test]
fn registry_capacity_is_bounded() {
    let mut registry = CapabilityRegistry::new();
    let rights = CapabilitySet::single(Capability::TaskManage);
    let first = registry.issue(1, rights).unwrap();
    for _ in 1..MAX_CAPABILITY_RECORDS {
        registry.issue(1, rights).unwrap();
    }
    assert_eq!(registry.issue(1, rights), Err(KernelError::CapacityExceeded));
    registry.revoke(first).unwrap();
    assert!(registry.issue(1, rights).is_ok());
}

#[test]
fn derived_handles_cover_no_more_than_their_parent() {
    let mut registry = CapabilityRegistry::new();
    let rights = CapabilitySet::single(Capability::TaskManage).with(Capability::TaskSpawn);
    let parent = registry.issue(1, rights).unwrap();
    let child = registry
        .derive(parent, 2, CapabilitySet::single(Capability::TaskSpawn))
        .unwrap();
    let child_rights = registry.resolve(child).unwrap();
    assert!(rights.contains_all(child_rights));
    registry.revoke(parent).unwrap();
    assert!(registry.derive(parent, 3, child_rights).is_err());
    assert_eq!(registry.resolve(child), Ok(child_rights));
}
