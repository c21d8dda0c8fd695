use alani_kernel::error::KernelError;
use alani_kernel::memory::{
    AllocatorPhase, BufferAccess, MemoryManager, MemoryMap, MemoryPermissions, MemoryRegion,
    MemoryRegionKind, SharedMemoryHandle, DEFAULT_MAX_USER_BUFFER_LEN, DEFAULT_USER_LOWER_BOUND,
    DEFAULT_USER_UPPER_BOUND, MAX_MEMORY_REGIONS, MAX_SHARED_REGIONS,
};
use alani_kernel::syscall::{
    UserBuffer, USER_BUFFER_PINNABLE, USER_BUFFER_READ, USER_BUFFER_WRITE,
};

fn region(start: u64, len: u64, kind: MemoryRegionKind) -> MemoryRegion {
    MemoryRegion::new(start, len, kind, MemoryPermissions::read()).unwrap()
}

#[test]
fn permission_bits_are_exact() {
    let all = MemoryPermissions::read()
        .union(MemoryPermissions::write())
        .union(MemoryPermissions::execute())
        .union(MemoryPermissions::user())
        .union(MemoryPermissions::device())
        .union(MemoryPermissions::sealed());
    assert_eq!(all.bits(), 0b11_1111);
    assert_eq!(MemoryPermissions::known_bits(), 0b11_1111);
    assert_eq!(MemoryPermissions::from_bits(0b11_1111), Ok(all));
    assert_eq!(MemoryPermissions::from_bits(64), Err(KernelError::ReservedBits));
    assert!(all.contains(MemoryPermissions::write()));
    assert!(!MemoryPermissions::read().contains(all));
    assert!(MemoryPermissions::user().is_user_mapping());
    assert!(!MemoryPermissions::read().is_user_mapping());
    assert_eq!(MemoryPermissions::empty().bits(), 0);
}

#[test]
fn regions_are_half_open() {
    let low = region(0x1000, 0x1000, MemoryRegionKind::Usable);
    let next = region(0x2000, 0x1000, MemoryRegionKind::Usable);
    let across = region(0x1fff, 2, MemoryRegionKind::Reserved);
    assert_eq!(low.end(), 0x2000);
    assert!(!low.overlaps(next));
    assert!(low.overlaps(across));
    assert!(across.overlaps(next));
    assert!(low.contains_range(0x1000, 0x1000));
    assert!(!low.contains_range(0x1000, 0x1001));
    assert!(!low.contains_range(u64::MAX, 2));
}

#[test]
fn region_ranges_are_validated() {
    let none = MemoryPermissions::empty();
    assert_eq!(
        MemoryRegion::new(1, 0, MemoryRegionKind::Usable, none),
        Err(KernelError::InvalidArgument)
    );
    assert_eq!(
        MemoryRegion::new(u64::MAX, 1, MemoryRegionKind::Usable, none),
        Err(KernelError::InvalidArgument)
    );
}

#[test]
fn map_preserves_regions_and_rejects_overlaps() {
    let mut map = MemoryMap::new();
    assert!(map.is_empty());
    let a = region(0x1000, 0x1000, MemoryRegionKind::Usable);
    let b = region(0x4000, 0x2000, MemoryRegionKind::Usable);
    let c = region(0x2000, 0x1000, MemoryRegionKind::Reserved);
    assert_eq!(map.push(a), Ok(()));
    assert_eq!(map.push(b), Ok(()));
    assert_eq!(map.push(c), Ok(()));
    assert_eq!(
        map.push(region(0x1800, 0x1000, MemoryRegionKind::Usable)),
        Err(KernelError::Overlap)
    );
    assert_eq!(map.regions(), &[a, b, c]);
    assert_eq!(map.len(), 3);
    assert_eq!(map.find_containing(0x4800, 0x100), Some(b));
    assert_eq!(map.find_containing(0x1800, 0x1000), None);
    assert_eq!(map.total_by_kind(MemoryRegionKind::Usable), 0x3000);
    assert_eq!(map.total_by_kind(MemoryRegionKind::Reserved), 0x1000);
}

#[test]
fn map_capacity_is_bounded() {
    let mut map = MemoryMap::new();
    for index in 0..MAX_MEMORY_REGIONS as u64 {
        map.push(region(index * 16, 16, MemoryRegionKind::Usable)).unwrap();
    }
    assert_eq!(
        map.push(region(0, 16, MemoryRegionKind::Usable)),
        Err(KernelError::CapacityExceeded)
    );
}

#[test]
fn allocator_phases_only_advance_by_one() {
    let mut manager = MemoryManager::new();
    assert_eq!(manager.allocator_phase(), AllocatorPhase::Uninitialized);
    assert_eq!(
        manager.set_allocator_phase(AllocatorPhase::Heap),
        Err(KernelError::InvalidState)
    );
    assert_eq!(manager.set_allocator_phase(AllocatorPhase::BootBump), Ok(()));
    assert_eq!(manager.set_allocator_phase(AllocatorPhase::Frame), Ok(()));
    assert_eq!(
        manager.set_allocator_phase(AllocatorPhase::BootBump),
        Err(KernelError::InvalidState)
    );
    assert_eq!(manager.set_allocator_phase(AllocatorPhase::Heap), Ok(()));
    assert_eq!(manager.allocator_phase(), AllocatorPhase::Heap);
}

#[test]
fn user_ranges_are_checked_in_order() {
    let manager = MemoryManager::new();
    let low = DEFAULT_USER_LOWER_BOUND;
    let high = DEFAULT_USER_UPPER_BOUND;
    let limit = DEFAULT_MAX_USER_BUFFER_LEN;
    assert_eq!(manager.validate_user_range(low, 1), Ok(()));
    assert_eq!(manager.validate_user_range(high - 8, 8), Ok(()));
    assert_eq!(manager.validate_user_range(low, limit), Ok(()));
    assert_eq!(manager.validate_user_range(0, 1), Err(KernelError::InvalidUserBuffer));
    assert_eq!(manager.validate_user_range(low, 0), Err(KernelError::InvalidUserBuffer));
    assert_eq!(manager.validate_user_range(low, limit + 1), Err(KernelError::BufferTooLarge));
    assert_eq!(manager.validate_user_range(u64::MAX, 2), Err(KernelError::InvalidUserBuffer));
    assert_eq!(manager.validate_user_range(low - 1, 8), Err(KernelError::BufferOutOfRange));
    assert_eq!(manager.validate_user_range(high - 8, 9), Err(KernelError::BufferOutOfRange));
}

#[test]
fn limits_on_user_memory_can_be_set() {
    let mut manager = MemoryManager::new();
    assert_eq!(manager.set_user_bounds(0, 10), Err(KernelError::InvalidArgument));
    assert_eq!(manager.set_user_bounds(10, 10), Err(KernelError::InvalidArgument));
    assert_eq!(manager.set_user_bounds(0x10, 0x100), Ok(()));
    assert_eq!(manager.set_max_user_buffer_len(0), Err(KernelError::InvalidArgument));
    assert_eq!(manager.set_max_user_buffer_len(0x20), Ok(()));
    assert_eq!(manager.set_minimum_user_alignment(0), Err(KernelError::InvalidArgument));
    assert_eq!(manager.set_minimum_user_alignment(12), Err(KernelError::InvalidArgument));
    assert_eq!(manager.set_minimum_user_alignment(8), Ok(()));
    assert_eq!(manager.validate_user_range(0x18, 0x20), Ok(()));
    assert_eq!(manager.validate_user_range(0x1c, 0x20), Err(KernelError::InvalidUserBuffer));
    assert_eq!(manager.validate_user_range(0x18, 0x21), Err(KernelError::BufferTooLarge));
    assert_eq!(manager.validate_user_range(0xf8, 0x10), Err(KernelError::BufferOutOfRange));
}

#[test]
fn buffers_need_the_flags_of_their_access() {
    let manager = MemoryManager::new();
    let readable = UserBuffer::new(DEFAULT_USER_LOWER_BOUND, 16, USER_BUFFER_READ);
    let both = UserBuffer::new(
        DEFAULT_USER_LOWER_BOUND,
        16,
        USER_BUFFER_READ | USER_BUFFER_WRITE | USER_BUFFER_PINNABLE,
    );
    let unknown = UserBuffer::new(DEFAULT_USER_LOWER_BOUND, 16, 8);
    let reserved = UserBuffer { reserved: 1, ..readable };
    let accepted = manager.validate_user_buffer(readable, BufferAccess::Read).unwrap();
    assert_eq!((accepted.ptr, accepted.len), (DEFAULT_USER_LOWER_BOUND, 16));
    assert_eq!(accepted.access, BufferAccess::Read);
    assert_eq!(
        manager.validate_user_buffer(readable, BufferAccess::Write),
        Err(KernelError::InvalidUserBuffer)
    );
    assert_eq!(
        manager.validate_user_buffer(readable, BufferAccess::ReadWrite),
        Err(KernelError::InvalidUserBuffer)
    );
    assert!(manager.validate_user_buffer(both, BufferAccess::ReadWrite).is_ok());
    assert_eq!(
        manager.validate_user_buffer(unknown, BufferAccess::Read),
        Err(KernelError::ReservedBits)
    );
    assert_eq!(
        manager.validate_user_buffer(reserved, BufferAccess::Read),
        Err(KernelError::ReservedBits)
    );
}

#[test]
fn shared_regions_are_found_and_sealed() {
    let mut manager = MemoryManager::new();
    let rights = MemoryPermissions::read().union(MemoryPermissions::write());
    let handle = manager.share_region(3, DEFAULT_USER_LOWER_BOUND, 64, rights).unwrap();
    assert_eq!((handle.id, handle.owner_task, handle.permissions), (1, 3, 3));
    let shared = manager.shared_region(handle).unwrap();
    assert_eq!((shared.start, shared.len, shared.sealed), (DEFAULT_USER_LOWER_BOUND, 64, false));
    let other = manager.share_region(4, DEFAULT_USER_LOWER_BOUND, 32, rights).unwrap();
    assert_eq!(other.id, 2);
    assert_eq!(manager.seal_shared_region(handle), Ok(()));
    let sealed = manager.shared_region(handle).unwrap();
    assert!(sealed.sealed);
    assert_eq!(sealed.handle.permissions, 1 | 32);
    assert_eq!(manager.seal_shared_region(handle), Ok(()));
    assert_eq!(manager.shared_region(handle), Ok(sealed));
    assert!(!manager.shared_region(other).unwrap().sealed);
    assert_eq!(
        manager.shared_region(SharedMemoryHandle::invalid()),
        Err(KernelError::NotFound)
    );
}

#[test]
fn sharing_is_refused_with_its_reason() {
    let mut manager = MemoryManager::new();
    let read = MemoryPermissions::read();
    assert_eq!(
        manager.share_region(1, DEFAULT_USER_LOWER_BOUND, 16, MemoryPermissions::sealed()),
        Err(KernelError::Sealed)
    );
    assert_eq!(manager.share_region(1, 0, 16, read), Err(KernelError::InvalidUserBuffer));
    for _ in 0..MAX_SHARED_REGIONS {
        manager.share_region(1, DEFAULT_USER_LOWER_BOUND, 16, read).unwrap();
    }
    assert_eq!(
        manager.share_region(1, DEFAULT_USER_LOWER_BOUND, 16, read),
        Err(KernelError::CapacityExceeded)
    );
    assert_eq!(manager.stats().shared_region_count, MAX_SHARED_REGIONS);
}

#[test]
fn stats_report_the_map() {
    let mut manager = MemoryManager::new();
    let map = manager.memory_map_mut();
    map.push(region(0, 0x1000, MemoryRegionKind::Usable)).unwrap();
    map.push(region(0x2000, 0x800, MemoryRegionKind::Usable)).unwrap();
    map.push(region(0x1000, 0x800, MemoryRegionKind::Reserved)).unwrap();
    let stats = manager.stats();
    assert_eq!(stats.usable_bytes, 0x1800);
    assert_eq!(stats.region_count, 3);
    assert_eq!(stats.shared_region_count, 0);
    assert_eq!(stats.allocator_phase, AllocatorPhase::Uninitialized);
    assert_eq!(manager.memory_map().len(), 3);
}
