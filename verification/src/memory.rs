//! Memory map preservation, user-buffer validation, and shared-memory handles.
//!
//! There are no page tables here. The module provides the host-mode contracts
//! they will have to keep: bounded memory map storage, explicit user range
//! validation, allocator phase tracking, and sealable shared-memory metadata.
use vstd::prelude::*;

use crate::capability::TaskId;
use crate::error::{KernelError, KernelResult};
use crate::syscall::{UserBuffer, USER_BUFFER_READ, USER_BUFFER_WRITE};

verus! {

/// Maximum boot memory map entries preserved by the manager.
pub const MAX_MEMORY_REGIONS: usize = 64;

/// Maximum shared-memory regions tracked by the manager.
pub const MAX_SHARED_REGIONS: usize = 32;

/// Default lower bound for userspace mappings.
pub const DEFAULT_USER_LOWER_BOUND: u64 = 0x0000_0000_0000_1000;

/// Default upper bound for canonical user addresses on the initial target.
pub const DEFAULT_USER_UPPER_BOUND: u64 = 0x0000_8000_0000_0000;

/// Default maximum userspace buffer accepted for copy/pin operations.
pub const DEFAULT_MAX_USER_BUFFER_LEN: u64 = 16 * 1024 * 1024;

/// Physical address wrapper used by memory-map APIs.
#[derive(Clone, Copy, Debug, Default, Eq, Ord, PartialEq, PartialOrd, Structural)]
pub struct PhysicalAddress(pub u64);

/// Virtual address wrapper used by mapping and validation APIs.
#[derive(Clone, Copy, Debug, Default, Eq, Ord, PartialEq, PartialOrd, Structural)]
pub struct VirtualAddress(pub u64);

/// Kinds of memory regions the kernel tracks from boot onward.
#[derive(Clone, Copy, Debug, Eq, PartialEq, Structural)]
pub enum MemoryRegionKind {
    /// RAM available after boot reservations are applied.
    Usable,
    /// Firmware, bootloader, or unknown reserved memory.
    Reserved,
    /// Kernel executable text.
    KernelText,
    /// Kernel read-only data.
    KernelReadOnly,
    /// Kernel writable data.
    KernelData,
    /// Kernel or task stack region.
    Stack,
    /// Userspace range owned by a task.
    User,
    /// MMIO region.
    Mmio,
    /// Guard page or unmapped sentinel range.
    Guard,
    /// Bootloader-provided handoff data.
    Bootloader,
    /// Device-owned DMA or aperture range.
    Device,
}

/// Permission bit: mapping may be read.
pub const PERMISSION_READ: u32 = 1;

/// Permission bit: mapping may be written.
pub const PERMISSION_WRITE: u32 = 2;

/// Permission bit: mapping may be executed.
pub const PERMISSION_EXECUTE: u32 = 4;

/// Permission bit: mapping is accessible from userspace.
pub const PERMISSION_USER: u32 = 8;

/// Permission bit: mapping is device/MMIO memory.
pub const PERMISSION_DEVICE: u32 = 16;

/// Permission bit: mapping has been sealed against further writes.
pub const PERMISSION_SEALED: u32 = 32;

/// All known permission bits.
pub const PERMISSION_KNOWN: u32 = 63;

/// Whether raw permission bits are all known ones.
pub open spec fn only_known_permissions(bits: u32) -> bool {
    bits & !PERMISSION_KNOWN == 0
}

/// Whether every bit of `wanted` is in `held`.
pub open spec fn permits(held: u32, wanted: u32) -> bool {
    held & wanted == wanted
}

/// Bitset describing mapping permissions and special handling.
///
/// The view is the raw bits, which are always known ones.
#[derive(Clone, Copy, Debug, Eq, PartialEq, Structural)]
pub struct MemoryPermissions {
    bits: u32,
}

impl View for MemoryPermissions {
    type V = u32;

    closed spec fn view(&self) -> u32 {
        self.bits
    }
}

impl MemoryPermissions {
    #[verifier::type_invariant]
    spec fn known(self) -> bool {
        only_known_permissions(self.bits)
    }

    /// Permissions of the single bit "mapping may be read".
    pub fn read() -> (permissions: Self)
        ensures
            permissions@ == PERMISSION_READ,
    {
        assert(1u32 & !63u32 == 0) by (bit_vector);
        Self { bits: PERMISSION_READ }
    }

    /// Permissions of the single bit "mapping may be written".
    pub fn write() -> (permissions: Self)
        ensures
            permissions@ == PERMISSION_WRITE,
    {
        assert(2u32 & !63u32 == 0) by (bit_vector);
        Self { bits: PERMISSION_WRITE }
    }

    /// Permissions of the single bit "mapping may be executed".
    pub fn execute() -> (permissions: Self)
        ensures
            permissions@ == PERMISSION_EXECUTE,
    {
        assert(4u32 & !63u32 == 0) by (bit_vector);
        Self { bits: PERMISSION_EXECUTE }
    }

    /// Permissions of the single bit "mapping is accessible from userspace".
    pub fn user() -> (permissions: Self)
        ensures
            permissions@ == PERMISSION_USER,
    {
        assert(8u32 & !63u32 == 0) by (bit_vector);
        Self { bits: PERMISSION_USER }
    }

    /// Permissions of the single bit "mapping is device/MMIO memory".
    pub fn device() -> (permissions: Self)
        ensures
            permissions@ == PERMISSION_DEVICE,
    {
        assert(16u32 & !63u32 == 0) by (bit_vector);
        Self { bits: PERMISSION_DEVICE }
    }

    /// Permissions of the single bit "mapping has been sealed against further
    /// writes".
    pub fn sealed() -> (permissions: Self)
        ensures
            permissions@ == PERMISSION_SEALED,
    {
        assert(32u32 & !63u32 == 0) by (bit_vector);
        Self { bits: PERMISSION_SEALED }
    }

    /// Empty permissions set.
    pub fn empty() -> (permissions: Self)
        ensures
            permissions@ == 0,
    {
        assert(0u32 & !63u32 == 0) by (bit_vector);
        Self { bits: 0 }
    }

    /// Builds permissions from raw bits after rejecting unknown flags.
    pub fn from_bits(bits: u32) -> (result: KernelResult<Self>)
        ensures
            only_known_permissions(bits) ==> (result matches Ok(permissions) && permissions@
                == bits),
            !only_known_permissions(bits) ==> result == Err::<Self, KernelError>(
                KernelError::ReservedBits,
            ),
    {
        if bits & !Self::known_bits() == 0 {
            Ok(Self { bits })
        } else {
            Err(KernelError::ReservedBits)
        }
    }

    /// Returns all known permission bits.
    pub fn known_bits() -> (bits: u32)
        ensures
            bits == PERMISSION_KNOWN,
    {
        assert(1u32 | 2u32 | 4u32 | 8u32 | 16u32 | 32u32 == 63u32) by (bit_vector);
        PERMISSION_READ | PERMISSION_WRITE | PERMISSION_EXECUTE | PERMISSION_USER
            | PERMISSION_DEVICE | PERMISSION_SEALED
    }

    /// Returns raw permission bits.
    pub fn bits(self) -> (bits: u32)
        ensures
            bits == self@,
            only_known_permissions(bits),
    {
        proof {
            use_type_invariant(&self);
        }
        self.bits
    }

    /// Returns `true` when all bits in `other` are present.
    pub fn contains(self, other: Self) -> (contained: bool)
        ensures
            contained == permits(self@, other@),
    {
        self.bits & other.bits == other.bits
    }

    /// Returns a permission set containing bits from both operands.
    pub fn union(self, other: Self) -> (permissions: Self)
        ensures
            permissions@ == self@ | other@,
            permits(permissions@, self@),
            permits(permissions@, other@),
    {
        let a: u32 = self.bits;
        let b: u32 = other.bits;
        proof {
            use_type_invariant(&self);
            use_type_invariant(&other);
            assert(a & !63u32 == 0 && b & !63u32 == 0 ==> (a | b) & !63u32 == 0) by (bit_vector);
            assert((a | b) & a == a && (a | b) & b == b) by (bit_vector);
        }
        Self { bits: a | b }
    }

    /// Returns `true` when the permissions are safe for userspace mapping.
    pub fn is_user_mapping(self) -> (user: bool)
        ensures
            user == permits(self@, PERMISSION_USER),
    {
        self.contains(Self::user())
    }
}

impl Default for MemoryPermissions {
    fn default() -> (permissions: Self)
        ensures
            permissions@ == 0,
    {
        Self::empty()
    }
}

/// One boot or virtual memory map entry.
#[derive(Clone, Copy, Debug, Eq, PartialEq, Structural)]
pub struct MemoryRegion {
    /// Base address of the region.
    pub start: u64,
    /// Region length in bytes.
    pub len: u64,
    /// Region classification.
    pub kind: MemoryRegionKind,
    /// Access permissions and special flags.
    pub permissions: MemoryPermissions,
}

impl MemoryRegion {
    /// Where the region ends.
    pub open spec fn spec_end(self) -> int {
        self.start + self.len
    }

    /// Whether the end of the region is an address.
    pub open spec fn fits(self) -> bool {
        self.spec_end() <= u64::MAX
    }

    /// Whether two regions overlap.
    pub open spec fn meets(self, other: MemoryRegion) -> bool {
        self.start < other.spec_end() && other.start < self.spec_end()
    }

    /// Whether the ends that an overlap test looks at are addresses: that of
    /// `other` always, that of this region only if it starts before it.
    pub open spec fn meets_defined(self, other: MemoryRegion) -> bool {
        other.fits() && (self.start < other.spec_end() ==> self.fits())
    }

    /// Whether the region holds a whole range that ends at an address.
    pub open spec fn holds(self, start: u64, len: u64) -> bool {
        start + len <= u64::MAX && self.start <= start && start + len <= self.spec_end()
    }

    /// Whether the end that a containment test looks at is an address.
    pub open spec fn holds_defined(self, start: u64, len: u64) -> bool {
        start + len <= u64::MAX && self.start <= start ==> self.fits()
    }

    /// Empty sentinel region used to initialize bounded arrays.
    pub fn empty() -> (region: Self)
        ensures
            region.start == 0,
            region.len == 0,
            region.kind == MemoryRegionKind::Reserved,
            region.permissions@ == 0,
    {
        Self {
            start: 0,
            len: 0,
            kind: MemoryRegionKind::Reserved,
            permissions: MemoryPermissions::empty(),
        }
    }

    /// Creates a region after basic range validation.
    pub fn new(
        start: u64,
        len: u64,
        kind: MemoryRegionKind,
        permissions: MemoryPermissions,
    ) -> (result: KernelResult<Self>)
        ensures
            len == 0 || start + len > u64::MAX ==> result == Err::<Self, KernelError>(
                KernelError::InvalidArgument,
            ),
            len != 0 && start + len <= u64::MAX ==> result == Ok::<Self, KernelError>(
                MemoryRegion { start, len, kind, permissions },
            ),
    {
        if len == 0 {
            return Err(KernelError::InvalidArgument);
        }
        if start.checked_add(len).is_none() {
            return Err(KernelError::InvalidArgument);
        }
        Ok(Self { start, len, kind, permissions })
    }

    /// Exclusive end address.
    pub fn end(self) -> (end: u64)
        requires
            self.fits(),
        ensures
            end == self.spec_end(),
    {
        self.start + self.len
    }

    /// Returns `true` if the region overlaps `other`.
    pub fn overlaps(self, other: Self) -> (overlap: bool)
        requires
            self.meets_defined(other),
        ensures
            overlap == self.meets(other),
    {
        self.start < other.end() && other.start < self.end()
    }

    /// Returns `true` if this region fully contains the range.
    pub fn contains_range(self, start: u64, len: u64) -> (contained: bool)
        requires
            self.holds_defined(start, len),
        ensures
            contained == self.holds(start, len),
    {
        if let Some(end) = start.checked_add(len) {
            start >= self.start && end <= self.end()
        } else {
            false
        }
    }
}

/// Whether no two regions overlap.
pub open spec fn regions_disjoint(regions: Seq<MemoryRegion>) -> bool {
    forall|i: int, j: int|
        0 <= i < j < regions.len() ==> !(#[trigger] regions[i]).meets(#[trigger] regions[j])
}

/// Whether every region ends at an address.
pub open spec fn regions_fit(regions: Seq<MemoryRegion>) -> bool {
    forall|i: int| 0 <= i < regions.len() ==> (#[trigger] regions[i]).fits()
}

/// Whether none of the first `n` regions overlaps another one.
pub open spec fn none_meets_before(
    regions: Seq<MemoryRegion>,
    region: MemoryRegion,
    n: int,
) -> bool {
    forall|j: int| 0 <= j < n ==> !(#[trigger] regions[j]).meets(region)
}

/// Whether a region can be tested against the regions of a map, up to the
/// first that it overlaps.
pub open spec fn push_defined(regions: Seq<MemoryRegion>, region: MemoryRegion) -> bool {
    regions.len() < MAX_MEMORY_REGIONS ==> forall|i: int|
        0 <= i < regions.len() && #[trigger] none_meets_before(regions, region, i)
            ==> regions[i].meets_defined(region)
}

/// Whether some region overlaps another one.
pub open spec fn meets_any(regions: Seq<MemoryRegion>, region: MemoryRegion) -> bool {
    exists|i: int| 0 <= i < regions.len() && (#[trigger] regions[i]).meets(region)
}

/// Why a region cannot be added to a map, if it cannot.
pub open spec fn push_error(regions: Seq<MemoryRegion>, region: MemoryRegion) -> Option<
    KernelError,
> {
    if regions.len() >= MAX_MEMORY_REGIONS {
        Some(KernelError::CapacityExceeded)
    } else if meets_any(regions, region) {
        Some(KernelError::Overlap)
    } else {
        None
    }
}

/// Whether none of the first `n` regions holds a range.
pub open spec fn none_holds_before(
    regions: Seq<MemoryRegion>,
    start: u64,
    len: u64,
    n: int,
) -> bool {
    forall|j: int| 0 <= j < n ==> !(#[trigger] regions[j]).holds(start, len)
}

/// Whether the region at `i` is the first that holds a range.
pub open spec fn is_first_holder(
    regions: Seq<MemoryRegion>,
    start: u64,
    len: u64,
    i: int,
) -> bool {
    &&& 0 <= i < regions.len()
    &&& regions[i].holds(start, len)
    &&& none_holds_before(regions, start, len, i)
}

/// Whether a range can be tested against the regions of a map, up to the first
/// that holds it.
pub open spec fn find_defined(regions: Seq<MemoryRegion>, start: u64, len: u64) -> bool {
    forall|i: int|
        0 <= i < regions.len() && #[trigger] none_holds_before(regions, start, len, i)
            ==> regions[i].holds_defined(start, len)
}

/// Bytes of the regions of a kind.
pub open spec fn total_of_kind(regions: Seq<MemoryRegion>, kind: MemoryRegionKind) -> nat
    decreases regions.len(),
{
    if regions.len() == 0 {
        0
    } else if regions.last().kind == kind {
        total_of_kind(regions.drop_last(), kind) + regions.last().len as nat
    } else {
        total_of_kind(regions.drop_last(), kind)
    }
}

proof fn lemma_total_of_prefix(regions: Seq<MemoryRegion>, kind: MemoryRegionKind, n: int)
    requires
        0 <= n <= regions.len(),
    ensures
        total_of_kind(regions.take(n), kind) <= total_of_kind(regions, kind),
        n < regions.len() ==> total_of_kind(regions.take(n + 1), kind) == total_of_kind(
            regions.take(n),
            kind,
        ) + if regions[n].kind == kind {
            regions[n].len as nat
        } else {
            0
        },
    decreases regions.len() - n,
{
    if n < regions.len() {
        assert(regions.take(n + 1).drop_last() =~= regions.take(n));
        lemma_total_of_prefix(regions, kind, n + 1);
    } else {
        assert(regions.take(n) =~= regions);
    }
}

/// Bounded boot memory map with overlap validation.
///
/// The view is the regions in the order they were added.
#[derive(Clone, Debug, Eq, PartialEq)]
pub struct MemoryMap {
    regions: [MemoryRegion; MAX_MEMORY_REGIONS],
    len: usize,
}

impl View for MemoryMap {
    type V = Seq<MemoryRegion>;

    closed spec fn view(&self) -> Seq<MemoryRegion> {
        self.regions@.take(self.len as int)
    }
}

impl MemoryMap {
    /// The number of entries is within the array.
    pub closed spec fn repr_ok(&self) -> bool {
        self.len <= MAX_MEMORY_REGIONS
    }

    /// The map is bounded and its regions do not overlap.
    pub open spec fn wf(&self) -> bool {
        self.repr_ok() && self@.len() <= MAX_MEMORY_REGIONS && regions_disjoint(self@)
    }

    /// Creates an empty memory map.
    pub fn new() -> (map: Self)
        ensures
            map.wf(),
            map@ == Seq::<MemoryRegion>::empty(),
    {
        Self { regions: [MemoryRegion::empty(); MAX_MEMORY_REGIONS], len: 0 }
    }

    /// Number of active memory regions.
    pub fn len(&self) -> (len: usize)
        requires
            self.wf(),
        ensures
            len == self@.len(),
    {
        self.len
    }

    /// Returns `true` when the map has no entries.
    pub fn is_empty(&self) -> (empty: bool)
        requires
            self.wf(),
        ensures
            empty == (self@.len() == 0),
    {
        self.len == 0
    }

    /// Active memory map entries.
    pub fn regions(&self) -> (regions: &[MemoryRegion])
        requires
            self.wf(),
        ensures
            regions@ == self@,
    {
        &self.regions[0..self.len]
    }

    /// Adds a region, rejecting overlaps and capacity overflow.
    pub fn push(&mut self, region: MemoryRegion) -> (result: KernelResult<()>)
        requires
            old(self).wf(),
            push_defined(old(self)@, region),
        ensures
            final(self).wf(),
            match push_error(old(self)@, region) {
                Some(error) => {
                    &&& result == Err::<(), KernelError>(error)
                    &&& final(self)@ == old(self)@
                },
                None => {
                    &&& result == Ok::<(), KernelError>(())
                    &&& final(self)@ == old(self)@.push(region)
                },
            },
    {
        if self.len == MAX_MEMORY_REGIONS {
            return Err(KernelError::CapacityExceeded);
        }
        let mut index: usize = 0;
        while index < self.len
            invariant
                index <= self.len,
                self.len < MAX_MEMORY_REGIONS,
                self@.len() == self.len,
                *self == *old(self),
                self.wf(),
                push_defined(self@, region),
                none_meets_before(self@, region, index as int),
            decreases self.len - index,
        {
            assert(self@[index as int] == self.regions@[index as int]);
            if self.regions[index].overlaps(region) {
                assert(self@[index as int].meets(region));
                return Err(KernelError::Overlap);
            }
            index += 1;
        }
        self.regions[self.len] = region;
        self.len += 1;
        assert(self@ =~= old(self)@.push(region));
        Ok(())
    }

    /// Finds the first region containing the range.
    pub fn find_containing(&self, start: u64, len: u64) -> (found: Option<MemoryRegion>)
        requires
            self.wf(),
            find_defined(self@, start, len),
        ensures
            match found {
                Some(region) => exists|i: int|
                    #![trigger self@[i]]
                    is_first_holder(self@, start, len, i) && region == self@[i],
                None => forall|i: int|
                    0 <= i < self@.len() ==> !(#[trigger] self@[i]).holds(start, len),
            },
    {
        let mut index: usize = 0;
        while index < self.len
            invariant
                index <= self.len,
                self.len <= MAX_MEMORY_REGIONS,
                self@.len() == self.len,
                find_defined(self@, start, len),
                none_holds_before(self@, start, len, index as int),
            decreases self.len - index,
        {
            assert(self@[index as int] == self.regions@[index as int]);
            if self.regions[index].contains_range(start, len) {
                assert(is_first_holder(self@, start, len, index as int));
                return Some(self.regions[index]);
            }
            index += 1;
        }
        None
    }

    /// Totals bytes of regions with `kind`.
    pub fn total_by_kind(&self, kind: MemoryRegionKind) -> (total: u64)
        requires
            self.wf(),
            total_of_kind(self@, kind) <= u64::MAX,
        ensures
            total == total_of_kind(self@, kind),
    {
        let mut total: u64 = 0;
        let mut index: usize = 0;
        assert(self@.take(0) =~= Seq::<MemoryRegion>::empty());
        while index < self.len
            invariant
                index <= self.len,
                self.len <= MAX_MEMORY_REGIONS,
                self@.len() == self.len,
                total_of_kind(self@, kind) <= u64::MAX,
                total == total_of_kind(self@.take(index as int), kind),
            decreases self.len - index,
        {
            proof {
                lemma_total_of_prefix(self@, kind, index as int);
                lemma_total_of_prefix(self@, kind, index + 1);
                assert(self@[index as int] == self.regions@[index as int]);
            }
            if self.regions[index].kind == kind {
                total += self.regions[index].len;
            }
            index += 1;
        }
        assert(self@.take(index as int) =~= self@);
        total
    }
}

impl Default for MemoryMap {
    fn default() -> (map: Self)
        ensures
            map.wf(),
            map@ == Seq::<MemoryRegion>::empty(),
    {
        Self::new()
    }
}

/// Where every region ends at an address, no test of a region or a range can
/// overflow, and adding a region that ends at an address keeps it so.
pub proof fn law_fitting_maps_are_defined(
    regions: Seq<MemoryRegion>,
    region: MemoryRegion,
    start: u64,
    len: u64,
)
    requires
        regions_fit(regions),
        region.fits(),
    ensures
        push_defined(regions, region),
        find_defined(regions, start, len),
        regions_fit(regions.push(region)),
{
}

/// Adding a region preserves the map: earlier regions stay as they are, where
/// they are, and no two regions of the map overlap.
pub proof fn law_push_preserves_the_map(regions: Seq<MemoryRegion>, region: MemoryRegion)
    requires
        regions_disjoint(regions),
        push_error(regions, region) is None,
    ensures
        regions_disjoint(regions.push(region)),
        regions.push(region).drop_last() == regions,
        regions.push(region).len() <= MAX_MEMORY_REGIONS,
{
    assert(regions.push(region).drop_last() =~= regions);
}

/// Addresses in the regions of a kind.
spec fn addresses_of_kind(regions: Seq<MemoryRegion>, kind: MemoryRegionKind) -> Set<int>
    decreases regions.len(),
{
    if regions.len() == 0 {
        Set::empty()
    } else if regions.last().kind == kind {
        addresses_of_kind(regions.drop_last(), kind) + vstd::set_lib::set_int_range(
            regions.last().start as int,
            regions.last().spec_end(),
        )
    } else {
        addresses_of_kind(regions.drop_last(), kind)
    }
}

proof fn lemma_addresses_of_kind(regions: Seq<MemoryRegion>, kind: MemoryRegionKind)
    requires
        regions_disjoint(regions),
    ensures
        addresses_of_kind(regions, kind).finite(),
        addresses_of_kind(regions, kind).len() == total_of_kind(regions, kind),
        forall|a: int| #[trigger]
            addresses_of_kind(regions, kind).contains(a) ==> exists|i: int|
                0 <= i < regions.len() && (#[trigger] regions[i]).start <= a
                    < regions[i].spec_end(),
    decreases regions.len(),
{
    if regions.len() > 0 {
        let rest = regions.drop_last();
        let last = regions.last();
        assert(forall|i: int| 0 <= i < rest.len() ==> rest[i] == regions[i]);
        lemma_addresses_of_kind(rest, kind);
        let range = vstd::set_lib::set_int_range(last.start as int, last.spec_end());
        vstd::set_lib::lemma_int_range(last.start as int, last.spec_end());
        assert(addresses_of_kind(rest, kind).disjoint(range)) by {
            assert forall|a: int|
                addresses_of_kind(rest, kind).contains(a) implies !range.contains(a) by {
                let i = choose|i: int|
                    0 <= i < rest.len() && (#[trigger] rest[i]).start <= a < rest[i].spec_end();
                assert(!regions[i].meets(regions[regions.len() - 1]));
            }
        }
        vstd::set_lib::lemma_set_disjoint_lens(addresses_of_kind(rest, kind), range);
        assert forall|a: int| #[trigger]
            addresses_of_kind(regions, kind).contains(a) implies exists|i: int|
            0 <= i < regions.len() && (#[trigger] regions[i]).start <= a
                < regions[i].spec_end() by {
            if addresses_of_kind(rest, kind).contains(a) {
                let i = choose|i: int|
                    0 <= i < rest.len() && (#[trigger] rest[i]).start <= a < rest[i].spec_end();
                assert(regions[i].start <= a < regions[i].spec_end());
            } else {
                assert(regions[regions.len() - 1].start <= a < regions[regions.len()
                    - 1].spec_end());
            }
        }
    }
}

/// The bytes of a kind can always be totalled in a map whose regions end at
/// addresses: regions that do not overlap share out one address space.
pub proof fn law_totals_fit(regions: Seq<MemoryRegion>, kind: MemoryRegionKind)
    requires
        regions_disjoint(regions),
        regions_fit(regions),
    ensures
        total_of_kind(regions, kind) <= u64::MAX,
{
    lemma_addresses_of_kind(regions, kind);
    let space = vstd::set_lib::set_int_range(0, u64::MAX as int);
    vstd::set_lib::lemma_int_range(0, u64::MAX as int);
    assert(addresses_of_kind(regions, kind).subset_of(space)) by {
        assert forall|a: int| addresses_of_kind(regions, kind).contains(a) implies space.contains(
            a,
        ) by {
            let i = choose|i: int|
                0 <= i < regions.len() && (#[trigger] regions[i]).start <= a
                    < regions[i].spec_end();
            assert(regions[i].fits());
        }
    }
    vstd::set_lib::lemma_len_subset(addresses_of_kind(regions, kind), space);
}

/// Allocator initialization phase.
#[derive(Clone, Copy, Debug, Eq, PartialEq, Structural)]
pub enum AllocatorPhase {
    /// No allocator is available.
    Uninitialized,
    /// Boot bump allocation is available.
    BootBump,
    /// Frame allocator is available.
    Frame,
    /// Kernel heap/slab allocation is available.
    Heap,
}

/// Whether the allocator may go from one phase to another: it stays where it is
/// or takes the next step of the declaration.
pub open spec fn phase_step_allowed(from: AllocatorPhase, to: AllocatorPhase) -> bool {
    to == from || to as int == from as int + 1
}

/// Required user-buffer access direction.
#[derive(Clone, Copy, Debug, Eq, PartialEq, Structural)]
pub enum BufferAccess {
    /// Kernel reads from userspace memory.
    Read,
    /// Kernel writes to userspace memory.
    Write,
    /// Kernel both reads and writes userspace memory.
    ReadWrite,
}

impl BufferAccess {
    /// The buffer flags an access direction needs.
    pub open spec fn required_flags(self) -> u32 {
        match self {
            BufferAccess::Read => USER_BUFFER_READ,
            BufferAccess::Write => USER_BUFFER_WRITE,
            BufferAccess::ReadWrite => USER_BUFFER_READ | USER_BUFFER_WRITE,
        }
    }
}

/// Validated userspace buffer range.
#[derive(Clone, Copy, Debug, Eq, PartialEq, Structural)]
pub struct ValidatedUserBuffer {
    /// Validated starting address.
    pub ptr: u64,
    /// Validated byte length.
    pub len: u64,
    /// Access required by the kernel operation.
    pub access: BufferAccess,
}

/// ABI-safe shared memory handle.
#[derive(Clone, Copy, Debug, Eq, PartialEq, Structural)]
pub struct SharedMemoryHandle {
    /// Registry-assigned shared-memory identifier. Zero is invalid.
    pub id: u64,
    /// Owning task.
    pub owner_task: TaskId,
    /// Permission bits for consumers.
    pub permissions: u32,
}

impl SharedMemoryHandle {
    /// Invalid zero handle.
    pub fn invalid() -> (handle: Self)
        ensures
            handle == (SharedMemoryHandle { id: 0, owner_task: 0, permissions: 0 }),
    {
        Self { id: 0, owner_task: 0, permissions: 0 }
    }
}

/// Metadata for one shared range.
#[derive(Clone, Copy, Debug, Eq, PartialEq, Structural)]
pub struct SharedRegion {
    /// Public handle metadata.
    pub handle: SharedMemoryHandle,
    /// Shared range start.
    pub start: u64,
    /// Shared range byte length.
    pub len: u64,
    /// Whether writes are permanently disabled.
    pub sealed: bool,
}

impl SharedRegion {
    /// The region after it was sealed: write permission is gone, and the
    /// permissions say so.
    pub open spec fn after_seal(self) -> SharedRegion {
        SharedRegion {
            sealed: true,
            handle: SharedMemoryHandle {
                permissions: (self.handle.permissions & !PERMISSION_WRITE) | PERMISSION_SEALED,
                ..self.handle
            },
            ..self
        }
    }

    fn empty() -> (region: Self)
        ensures
            region == (SharedRegion {
                handle: SharedMemoryHandle { id: 0, owner_task: 0, permissions: 0 },
                start: 0,
                len: 0,
                sealed: true,
            }),
    {
        Self { handle: SharedMemoryHandle::invalid(), start: 0, len: 0, sealed: true }
    }
}

/// Memory pressure and allocator diagnostics.
#[derive(Clone, Copy, Debug, Eq, PartialEq, Structural)]
pub struct MemoryStats {
    /// Total usable RAM preserved from the boot map.
    pub usable_bytes: u64,
    /// Number of active memory map regions.
    pub region_count: usize,
    /// Active shared-memory region count.
    pub shared_region_count: usize,
    /// Current allocator phase.
    pub allocator_phase: AllocatorPhase,
}

/// Frame allocator contract for future platform-specific implementations.
pub trait FrameAllocator {
    /// Allocates one physical frame and returns its base address.
    fn allocate_frame(&mut self) -> KernelResult<PhysicalAddress>;

    /// Releases a previously allocated physical frame.
    fn deallocate_frame(&mut self, frame: PhysicalAddress) -> KernelResult<()>;
}

/// Whether a number is a power of two.
pub open spec fn power_of_two(x: u64) -> bool {
    exists|n: nat| #[trigger] vstd::arithmetic::power2::pow2(n) == x
}

proof fn lemma_power_of_two_bits(x: u64)
    ensures
        power_of_two(x) <==> (x != 0 && x & ((x - 1) as u64) == 0),
    decreases x,
{
    if x == 0 {
        assert forall|n: nat| #[trigger] vstd::arithmetic::power2::pow2(n) != x by {
            vstd::arithmetic::power2::lemma_pow2_pos(n);
        }
    } else if x == 1 {
        vstd::arithmetic::power2::lemma2_to64();
        assert(vstd::arithmetic::power2::pow2(0) == x);
        assert(1u64 & 0u64 == 0) by (bit_vector);
    } else if x % 2 == 1 {
        assert(x % 2 == 1 && x > 1 ==> x & ((x - 1) as u64) != 0) by (bit_vector);
        assert forall|n: nat| #[trigger] vstd::arithmetic::power2::pow2(n) != x by {
            if n == 0 {
                vstd::arithmetic::power2::lemma2_to64();
            } else {
                vstd::arithmetic::power2::lemma_pow2_unfold(n);
            }
        }
    } else {
        let half = x / 2;
        lemma_power_of_two_bits(half);
        assert(x % 2 == 0 && x > 1 ==> (x & ((x - 1) as u64) == 0 <==> (x / 2) & ((x / 2 - 1) as u64)
            == 0)) by (bit_vector);
        if power_of_two(half) {
            let n = choose|n: nat| #[trigger] vstd::arithmetic::power2::pow2(n) == half;
            vstd::arithmetic::power2::lemma_pow2_unfold(n + 1);
            assert(vstd::arithmetic::power2::pow2(n + 1) == x);
        }
        if power_of_two(x) {
            let n = choose|n: nat| #[trigger] vstd::arithmetic::power2::pow2(n) == x;
            if n == 0 {
                vstd::arithmetic::power2::lemma2_to64();
            } else {
                vstd::arithmetic::power2::lemma_pow2_unfold(n);
                assert(vstd::arithmetic::power2::pow2((n - 1) as nat) == half);
            }
        }
    }
}

fn is_power_of_two(x: u64) -> (result: bool)
    ensures
        result == power_of_two(x),
{
    proof {
        lemma_power_of_two_bits(x);
    }
    x != 0 && x & (x - 1) == 0
}

proof fn lemma_alignment_mask(ptr: u64, alignment: u64)
    requires
        power_of_two(alignment),
    ensures
        alignment != 0,
        ptr & ((alignment - 1) as u64) == ptr % alignment,
{
    let n = choose|n: nat| #[trigger] vstd::arithmetic::power2::pow2(n) == alignment;
    vstd::arithmetic::power2::lemma_pow2_pos(n);
    if n >= 64 {
        vstd::arithmetic::power2::lemma2_to64();
        if n > 64 {
            vstd::arithmetic::power2::lemma_pow2_strictly_increases(64, n);
        }
    }
    vstd::bits::lemma_u64_low_bits_mask_is_mod(ptr, n);
}

/// What a memory manager holds: the preserved map, the allocator phase, the
/// limits on user buffers, and the shared regions in the order of their
/// identifiers.
#[verifier::ext_equal]
pub struct MemoryState {
    pub regions: Seq<MemoryRegion>,
    pub phase: AllocatorPhase,
    pub lower_bound: u64,
    pub upper_bound: u64,
    pub max_len: u64,
    pub alignment: u64,
    pub shared: Seq<SharedRegion>,
}

impl MemoryState {
    /// What every memory manager keeps: the map is bounded and disjoint, the
    /// limits make sense, and shared regions are numbered from one on.
    pub open spec fn valid(self) -> bool {
        &&& self.regions.len() <= MAX_MEMORY_REGIONS
        &&& regions_disjoint(self.regions)
        &&& 1 <= self.lower_bound < self.upper_bound
        &&& 1 <= self.max_len
        &&& power_of_two(self.alignment)
        &&& self.shared.len() <= MAX_SHARED_REGIONS
        &&& forall|i: int|
            0 <= i < self.shared.len() ==> valid_shared(#[trigger] self.shared[i], i)
    }

    /// Why a user range is refused, if it is.
    pub open spec fn range_error(self, ptr: u64, len: u64) -> Option<KernelError> {
        if ptr == 0 || len == 0 {
            Some(KernelError::InvalidUserBuffer)
        } else if len > self.max_len {
            Some(KernelError::BufferTooLarge)
        } else if ptr + len > u64::MAX {
            Some(KernelError::InvalidUserBuffer)
        } else if ptr < self.lower_bound || ptr + len > self.upper_bound {
            Some(KernelError::BufferOutOfRange)
        } else if ptr % self.alignment != 0 {
            Some(KernelError::InvalidUserBuffer)
        } else {
            None
        }
    }

    /// Why a user buffer is refused for an access, if it is.
    pub open spec fn buffer_error(self, buffer: UserBuffer, access: BufferAccess) -> Option<
        KernelError,
    > {
        if buffer.reserved != 0 || buffer.unknown_flags() {
            Some(KernelError::ReservedBits)
        } else if buffer.flags & access.required_flags() != access.required_flags() {
            Some(KernelError::InvalidUserBuffer)
        } else {
            self.range_error(buffer.ptr, buffer.len)
        }
    }

    /// Why a range cannot be shared with some permission bits, if it cannot.
    pub open spec fn share_error(self, start: u64, len: u64, permissions: u32) -> Option<
        KernelError,
    > {
        match self.range_error(start, len) {
            Some(error) => Some(error),
            None => if permits(permissions, PERMISSION_SEALED) {
                Some(KernelError::Sealed)
            } else if self.shared.len() >= MAX_SHARED_REGIONS {
                Some(KernelError::CapacityExceeded)
            } else {
                None
            },
        }
    }

    /// The handle of the next shared region.
    pub open spec fn next_handle(self, owner_task: TaskId, permissions: u32) -> SharedMemoryHandle {
        SharedMemoryHandle { id: (self.shared.len() + 1) as u64, owner_task, permissions }
    }

    /// What sharing a range returns.
    pub open spec fn share_result(
        self,
        owner_task: TaskId,
        start: u64,
        len: u64,
        permissions: u32,
    ) -> KernelResult<SharedMemoryHandle> {
        match self.share_error(start, len, permissions) {
            Some(error) => Err(error),
            None => Ok(self.next_handle(owner_task, permissions)),
        }
    }

    /// The manager after a range was asked to be shared.
    pub open spec fn after_share(
        self,
        owner_task: TaskId,
        start: u64,
        len: u64,
        permissions: u32,
    ) -> MemoryState {
        if self.share_error(start, len, permissions) is Some {
            self
        } else {
            MemoryState {
                shared: self.shared.push(
                    SharedRegion {
                        handle: self.next_handle(owner_task, permissions),
                        start,
                        len,
                        sealed: false,
                    },
                ),
                ..self
            }
        }
    }

    /// Whether an identifier names a shared region.
    pub open spec fn is_shared(self, id: u64) -> bool {
        1 <= id <= self.shared.len()
    }

    /// The shared region with an identifier.
    pub open spec fn shared_with(self, id: u64) -> SharedRegion {
        self.shared[id - 1]
    }

    /// The manager after an identifier was asked to be sealed.
    pub open spec fn after_seal(self, id: u64) -> MemoryState {
        if self.is_shared(id) {
            MemoryState {
                shared: self.shared.update(id - 1, self.shared_with(id).after_seal()),
                ..self
            }
        } else {
            self
        }
    }
}

/// What the shared region at index `i` keeps: its identifier counts from one,
/// its range is not empty and ends at an address, its permission bits are
/// known, and they say that it is sealed exactly when it is, in which case
/// nobody may write.
pub open spec fn valid_shared(region: SharedRegion, i: int) -> bool {
    &&& region.handle.id == i + 1
    &&& region.start != 0
    &&& region.len != 0
    &&& region.start + region.len <= u64::MAX
    &&& only_known_permissions(region.handle.permissions)
    &&& region.sealed == permits(region.handle.permissions, PERMISSION_SEALED)
    &&& region.sealed ==> !permits(region.handle.permissions, PERMISSION_WRITE)
}

proof fn lemma_seal_keeps_region_valid(region: SharedRegion, i: int)
    requires
        valid_shared(region, i),
    ensures
        valid_shared(region.after_seal(), i),
{
    let bits = region.handle.permissions;
    assert(bits & !63u32 == 0 ==> ((bits & !2u32) | 32u32) & !63u32 == 0) by (bit_vector);
    assert(((bits & !2u32) | 32u32) & 32u32 == 32u32) by (bit_vector);
    assert(((bits & !2u32) | 32u32) & 2u32 != 2u32) by (bit_vector);
}

proof fn lemma_after_seal_valid(state: MemoryState, id: u64)
    requires
        state.valid(),
    ensures
        state.after_seal(id).valid(),
{
    if state.is_shared(id) {
        let after = state.after_seal(id);
        assert forall|i: int| 0 <= i < after.shared.len() implies valid_shared(
            #[trigger] after.shared[i],
            i,
        ) by {
            assert(valid_shared(state.shared[i], i));
            lemma_seal_keeps_region_valid(state.shared[i], i);
        }
    }
}

/// Exactly the first `n` slots hold shared regions, numbered from one on.
spec fn shared_filled(slots: Seq<SharedRegion>, n: nat) -> bool {
    &&& n <= slots.len()
    &&& forall|i: int|
        0 <= i < slots.len() ==> (#[trigger] slots[i]).handle.id == if i < n {
            i + 1
        } else {
            0
        }
}

/// Host-mode memory manager.
#[derive(Clone, Debug, Eq, PartialEq)]
pub struct MemoryManager {
    map: MemoryMap,
    allocator_phase: AllocatorPhase,
    user_lower_bound: u64,
    user_upper_bound: u64,
    max_user_buffer_len: u64,
    minimum_user_alignment: u64,
    shared_regions: [SharedRegion; MAX_SHARED_REGIONS],
    next_shared_id: u64,
}

impl View for MemoryManager {
    type V = MemoryState;

    closed spec fn view(&self) -> MemoryState {
        MemoryState {
            regions: self.map@,
            phase: self.allocator_phase,
            lower_bound: self.user_lower_bound,
            upper_bound: self.user_upper_bound,
            max_len: self.max_user_buffer_len,
            alignment: self.minimum_user_alignment,
            shared: self.shared_regions@.take(self.next_shared_id - 1),
        }
    }
}

impl MemoryManager {
    /// The map is well formed, and the shared slots are filled in the order of
    /// their identifiers.
    pub closed spec fn repr_ok(&self) -> bool {
        &&& self.map.wf()
        &&& 1 <= self.next_shared_id <= MAX_SHARED_REGIONS + 1
        &&& shared_filled(self.shared_regions@, (self.next_shared_id - 1) as nat)
    }

    /// The manager is in a state its operations can produce.
    pub open spec fn wf(&self) -> bool {
        self.repr_ok() && self@.valid()
    }

    /// The state of a fresh manager.
    pub open spec fn spec_new() -> MemoryState {
        MemoryState {
            regions: Seq::empty(),
            phase: AllocatorPhase::Uninitialized,
            lower_bound: DEFAULT_USER_LOWER_BOUND,
            upper_bound: DEFAULT_USER_UPPER_BOUND,
            max_len: DEFAULT_MAX_USER_BUFFER_LEN,
            alignment: 1,
            shared: Seq::empty(),
        }
    }

    /// Creates a manager with conservative userspace validation bounds.
    pub fn new() -> (manager: Self)
        ensures
            manager.wf(),
            manager@ == Self::spec_new(),
    {
        let manager = Self {
            map: MemoryMap::new(),
            allocator_phase: AllocatorPhase::Uninitialized,
            user_lower_bound: DEFAULT_USER_LOWER_BOUND,
            user_upper_bound: DEFAULT_USER_UPPER_BOUND,
            max_user_buffer_len: DEFAULT_MAX_USER_BUFFER_LEN,
            minimum_user_alignment: 1,
            shared_regions: [SharedRegion::empty(); MAX_SHARED_REGIONS],
            next_shared_id: 1,
        };
        proof {
            vstd::arithmetic::power2::lemma2_to64();
            assert(vstd::arithmetic::power2::pow2(0) == 1);
            assert(manager@.shared =~= Seq::empty());
        }
        manager
    }

    /// Returns the preserved memory map.
    pub fn memory_map(&self) -> (map: &MemoryMap)
        requires
            self.wf(),
        ensures
            map.wf(),
            map@ == self@.regions,
    {
        &self.map
    }

    /// Mutable access to the preserved memory map for boot setup.
    pub fn memory_map_mut(&mut self) -> (map: &mut MemoryMap)
        requires
            old(self).wf(),
        ensures
            map.wf(),
            map@ == old(self)@.regions,
            final(self)@ == (MemoryState { regions: final(map)@, ..old(self)@ }),
            final(map).wf() ==> final(self).wf(),
    {
        &mut self.map
    }

    /// Current allocator phase.
    pub fn allocator_phase(&self) -> (phase: AllocatorPhase)
        ensures
            phase == self@.phase,
    {
        self.allocator_phase
    }

    /// Advances the allocator phase in the boot-defined order.
    pub fn set_allocator_phase(&mut self, phase: AllocatorPhase) -> (result: KernelResult<()>)
        requires
            old(self).wf(),
        ensures
            final(self).wf(),
            final(self)@ == old(self)@.after(MemoryCall::SetPhase { phase }),
            phase_step_allowed(old(self)@.phase, phase) ==> {
                &&& result == Ok::<(), KernelError>(())
                &&& final(self)@ == (MemoryState { phase, ..old(self)@ })
            },
            !phase_step_allowed(old(self)@.phase, phase) ==> {
                &&& result == Err::<(), KernelError>(KernelError::InvalidState)
                &&& final(self)@ == old(self)@
            },
    {
        let valid = self.allocator_phase == phase || matches!(
            (self.allocator_phase, phase),
            (AllocatorPhase::Uninitialized, AllocatorPhase::BootBump)
                | (AllocatorPhase::BootBump, AllocatorPhase::Frame)
                | (AllocatorPhase::Frame, AllocatorPhase::Heap)
        );
        if !valid {
            return Err(KernelError::InvalidState);
        }
        self.allocator_phase = phase;
        Ok(())
    }

    /// Sets the accepted userspace address range.
    pub fn set_user_bounds(&mut self, lower: u64, upper: u64) -> (result: KernelResult<()>)
        requires
            old(self).wf(),
        ensures
            final(self).wf(),
            final(self)@ == old(self)@.after(MemoryCall::SetBounds { lower, upper }),
            0 < lower < upper ==> {
                &&& result == Ok::<(), KernelError>(())
                &&& final(self)@ == (MemoryState {
                    lower_bound: lower,
                    upper_bound: upper,
                    ..old(self)@
                })
            },
            !(0 < lower < upper) ==> {
                &&& result == Err::<(), KernelError>(KernelError::InvalidArgument)
                &&& final(self)@ == old(self)@
            },
    {
        if lower == 0 || lower >= upper {
            return Err(KernelError::InvalidArgument);
        }
        self.user_lower_bound = lower;
        self.user_upper_bound = upper;
        Ok(())
    }

    /// Sets the maximum copy/pin length accepted for userspace buffers.
    pub fn set_max_user_buffer_len(&mut self, max_len: u64) -> (result: KernelResult<()>)
        requires
            old(self).wf(),
        ensures
            final(self).wf(),
            final(self)@ == old(self)@.after(MemoryCall::SetMaxLen { max_len }),
            max_len != 0 ==> {
                &&& result == Ok::<(), KernelError>(())
                &&& final(self)@ == (MemoryState { max_len, ..old(self)@ })
            },
            max_len == 0 ==> {
                &&& result == Err::<(), KernelError>(KernelError::InvalidArgument)
                &&& final(self)@ == old(self)@
            },
    {
        if max_len == 0 {
            return Err(KernelError::InvalidArgument);
        }
        self.max_user_buffer_len = max_len;
        Ok(())
    }

    /// Sets the minimum alignment required for userspace buffer pointers.
    pub fn set_minimum_user_alignment(&mut self, alignment: u64) -> (result: KernelResult<()>)
        requires
            old(self).wf(),
        ensures
            final(self).wf(),
            final(self)@ == old(self)@.after(MemoryCall::SetAlignment { alignment }),
            power_of_two(alignment) ==> {
                &&& result == Ok::<(), KernelError>(())
                &&& final(self)@ == (MemoryState { alignment, ..old(self)@ })
            },
            !power_of_two(alignment) ==> {
                &&& result == Err::<(), KernelError>(KernelError::InvalidArgument)
                &&& final(self)@ == old(self)@
            },
    {
        if !is_power_of_two(alignment) {
            return Err(KernelError::InvalidArgument);
        }
        self.minimum_user_alignment = alignment;
        Ok(())
    }

    /// Validates a raw user range without interpreting buffer direction flags.
    pub fn validate_user_range(&self, ptr: u64, len: u64) -> (result: KernelResult<()>)
        requires
            self.wf(),
        ensures
            result == match self@.range_error(ptr, len) {
                Some(error) => Err::<(), KernelError>(error),
                None => Ok::<(), KernelError>(()),
            },
    {
        if ptr == 0 || len == 0 {
            return Err(KernelError::InvalidUserBuffer);
        }
        if len > self.max_user_buffer_len {
            return Err(KernelError::BufferTooLarge);
        }
        let end: u64 = match ptr.checked_add(len) {
            Some(end) => end,
            None => {
                return Err(KernelError::InvalidUserBuffer);
            },
        };
        if ptr < self.user_lower_bound || end > self.user_upper_bound {
            return Err(KernelError::BufferOutOfRange);
        }
        proof {
            lemma_alignment_mask(ptr, self.minimum_user_alignment);
        }
        if ptr & (self.minimum_user_alignment - 1) != 0 {
            return Err(KernelError::InvalidUserBuffer);
        }
        Ok(())
    }

    /// Validates a syscall user buffer before a subsystem can read or write it.
    pub fn validate_user_buffer(&self, buffer: UserBuffer, access: BufferAccess) -> (result:
        KernelResult<ValidatedUserBuffer>)
        requires
            self.wf(),
        ensures
            result == match self@.buffer_error(buffer, access) {
                Some(error) => Err::<ValidatedUserBuffer, KernelError>(error),
                None => Ok::<ValidatedUserBuffer, KernelError>(
                    ValidatedUserBuffer { ptr: buffer.ptr, len: buffer.len, access },
                ),
            },
    {
        if buffer.reserved != 0 || buffer.has_unknown_flags() {
            return Err(KernelError::ReservedBits);
        }
        let required: u32 = match access {
            BufferAccess::Read => USER_BUFFER_READ,
            BufferAccess::Write => USER_BUFFER_WRITE,
            BufferAccess::ReadWrite => USER_BUFFER_READ | USER_BUFFER_WRITE,
        };
        if buffer.flags & required != required {
            return Err(KernelError::InvalidUserBuffer);
        }
        match self.validate_user_range(buffer.ptr, buffer.len) {
            Ok(()) => Ok(ValidatedUserBuffer { ptr: buffer.ptr, len: buffer.len, access }),
            Err(error) => Err(error),
        }
    }

    /// Registers a sealable shared-memory range after validating ownership range.
    pub fn share_region(
        &mut self,
        owner_task: TaskId,
        start: u64,
        len: u64,
        permissions: MemoryPermissions,
    ) -> (result: KernelResult<SharedMemoryHandle>)
        requires
            old(self).wf(),
        ensures
            final(self).wf(),
            result == old(self)@.share_result(owner_task, start, len, permissions@),
            final(self)@ == old(self)@.after_share(owner_task, start, len, permissions@),
    {
        match self.validate_user_range(start, len) {
            Ok(()) => {},
            Err(error) => {
                return Err(error);
            },
        }
        if permissions.contains(MemoryPermissions::sealed()) {
            return Err(KernelError::Sealed);
        }
        let ghost n = (self.next_shared_id - 1) as nat;
        let mut slot: usize = 0;
        while slot < MAX_SHARED_REGIONS && self.shared_regions[slot].handle.id != 0
            invariant
                slot <= MAX_SHARED_REGIONS,
                shared_filled(self.shared_regions@, n),
                slot <= n,
            decreases MAX_SHARED_REGIONS - slot,
        {
            slot += 1;
        }
        if slot == MAX_SHARED_REGIONS {
            return Err(KernelError::CapacityExceeded);
        }
        assert(slot == n);
        let handle = SharedMemoryHandle {
            id: self.next_shared_id,
            owner_task,
            permissions: permissions.bits(),
        };
        self.next_shared_id = match self.next_shared_id.checked_add(1) {
            Some(next_shared_id) => next_shared_id,
            None => {
                return Err(KernelError::Internal);
            },
        };
        self.shared_regions[slot] = SharedRegion { handle, start, len, sealed: false };
        proof {
            assert(self@.shared =~= old(self)@.after_share(
                owner_task,
                start,
                len,
                permissions@,
            ).shared);
            assert forall|i: int| 0 <= i < self@.shared.len() implies valid_shared(
                #[trigger] self@.shared[i],
                i,
            ) by {
                if i < n {
                    assert(self@.shared[i] == old(self)@.shared[i]);
                }
            }
        }
        Ok(handle)
    }

    /// Index of the slot of a shared region, or the capacity when there is none.
    fn shared_slot(&self, id: u64) -> (slot: usize)
        requires
            self.wf(),
        ensures
            slot < MAX_SHARED_REGIONS <==> self@.is_shared(id),
            slot < MAX_SHARED_REGIONS ==> {
                &&& slot == id - 1
                &&& self.shared_regions@[slot as int] == self@.shared_with(id)
            },
            slot <= MAX_SHARED_REGIONS,
    {
        let ghost n = (self.next_shared_id - 1) as nat;
        let mut slot: usize = 0;
        while slot < MAX_SHARED_REGIONS
            invariant
                slot <= MAX_SHARED_REGIONS,
                shared_filled(self.shared_regions@, n),
                n == self@.shared.len(),
                n == self.next_shared_id - 1,
                forall|i: int|
                    0 <= i < n ==> #[trigger] self@.shared[i] == self.shared_regions@[i],
                1 <= id <= slot ==> n < id,
            decreases MAX_SHARED_REGIONS - slot,
        {
            let found: u64 = self.shared_regions[slot].handle.id;
            if found == id && found != 0 {
                return slot;
            }
            slot += 1;
        }
        slot
    }

    /// Marks a shared-memory handle as sealed against further writes.
    pub fn seal_shared_region(&mut self, handle: SharedMemoryHandle) -> (result: KernelResult<()>)
        requires
            old(self).wf(),
        ensures
            final(self).wf(),
            final(self)@ == old(self)@.after_seal(handle.id),
            result == if old(self)@.is_shared(handle.id) {
                Ok::<(), KernelError>(())
            } else {
                Err::<(), KernelError>(KernelError::NotFound)
            },
    {
        let slot: usize = self.shared_slot(handle.id);
        if slot == MAX_SHARED_REGIONS {
            return Err(KernelError::NotFound);
        }
        proof {
            lemma_after_seal_valid(self@, handle.id);
        }
        let mut region = self.shared_regions[slot];
        region.sealed = true;
        region.handle.permissions = region.handle.permissions & !PERMISSION_WRITE;
        region.handle.permissions = region.handle.permissions | PERMISSION_SEALED;
        self.shared_regions[slot] = region;
        assert(self@.shared =~= old(self)@.after_seal(handle.id).shared);
        Ok(())
    }

    /// Looks up a shared-memory region by handle.
    pub fn shared_region(&self, handle: SharedMemoryHandle) -> (result: KernelResult<SharedRegion>)
        requires
            self.wf(),
        ensures
            result == if self@.is_shared(handle.id) {
                Ok::<SharedRegion, KernelError>(self@.shared_with(handle.id))
            } else {
                Err::<SharedRegion, KernelError>(KernelError::NotFound)
            },
    {
        let slot: usize = self.shared_slot(handle.id);
        if slot == MAX_SHARED_REGIONS {
            return Err(KernelError::NotFound);
        }
        Ok(self.shared_regions[slot])
    }

    /// Returns current memory diagnostics.
    pub fn stats(&self) -> (stats: MemoryStats)
        requires
            self.wf(),
            total_of_kind(self@.regions, MemoryRegionKind::Usable) <= u64::MAX,
        ensures
            stats.usable_bytes == total_of_kind(self@.regions, MemoryRegionKind::Usable),
            stats.region_count == self@.regions.len(),
            stats.shared_region_count == self@.shared.len(),
            stats.allocator_phase == self@.phase,
    {
        let ghost n = (self.next_shared_id - 1) as nat;
        let mut shared_region_count: usize = 0;
        let mut slot: usize = 0;
        while slot < MAX_SHARED_REGIONS
            invariant
                slot <= MAX_SHARED_REGIONS,
                shared_filled(self.shared_regions@, n),
                shared_region_count == if slot < n {
                    slot as int
                } else {
                    n as int
                },
            decreases MAX_SHARED_REGIONS - slot,
        {
            if self.shared_regions[slot].handle.id != 0 {
                shared_region_count += 1;
            }
            slot += 1;
        }
        MemoryStats {
            usable_bytes: self.map.total_by_kind(MemoryRegionKind::Usable),
            region_count: self.map.len(),
            shared_region_count,
            allocator_phase: self.allocator_phase,
        }
    }
}

impl Default for MemoryManager {
    fn default() -> (manager: Self)
        ensures
            manager.wf(),
            manager@ == Self::spec_new(),
    {
        Self::new()
    }
}

/// A validated buffer is one the kernel may touch: it is not empty, within the
/// length limit, wholly inside the user address range, aligned, and declared
/// for the direction of the access.
pub proof fn law_validated_buffers_are_safe(
    state: MemoryState,
    buffer: UserBuffer,
    access: BufferAccess,
)
    requires
        state.valid(),
        state.buffer_error(buffer, access) is None,
    ensures
        0 < buffer.len <= state.max_len,
        state.lower_bound <= buffer.ptr,
        buffer.ptr + buffer.len <= state.upper_bound,
        buffer.ptr % state.alignment == 0,
        buffer.reserved == 0,
        access != BufferAccess::Write ==> buffer.flags & USER_BUFFER_READ != 0,
        access != BufferAccess::Read ==> buffer.flags & USER_BUFFER_WRITE != 0,
{
    let flags = buffer.flags;
    assert(flags & 1u32 == 1u32 ==> flags & 1u32 != 0) by (bit_vector);
    assert(flags & 2u32 == 2u32 ==> flags & 2u32 != 0) by (bit_vector);
    assert(flags & (1u32 | 2u32) == (1u32 | 2u32) ==> flags & 1u32 != 0 && flags & 2u32 != 0)
        by (bit_vector);
}

/// The allocator only moves forward, one phase at a time, and enters its heap
/// phase only from the frame phase.
pub proof fn law_allocator_phases_only_advance(from: AllocatorPhase, to: AllocatorPhase)
    requires
        phase_step_allowed(from, to),
    ensures
        from as int <= to as int,
        to as int <= from as int + 1,
        to == AllocatorPhase::Heap && from != to ==> from == AllocatorPhase::Frame,
{
}

/// A shared range gets a fresh, nonzero identifier and is found under it as it
/// was shared.
pub proof fn law_shared_region_is_found(
    state: MemoryState,
    owner_task: TaskId,
    start: u64,
    len: u64,
    permissions: u32,
)
    requires
        state.valid(),
        state.share_error(start, len, permissions) is None,
    ensures
        ({
            let after = state.after_share(owner_task, start, len, permissions);
            let handle = state.next_handle(owner_task, permissions);
            &&& handle.id != 0
            &&& !state.is_shared(handle.id)
            &&& after.is_shared(handle.id)
            &&& after.shared_with(handle.id) == (SharedRegion {
                handle,
                start,
                len,
                sealed: false,
            })
        }),
{
}

/// Sharing a range leaves every region that is already shared as it was.
pub proof fn law_sharing_keeps_other_regions(
    state: MemoryState,
    owner_task: TaskId,
    start: u64,
    len: u64,
    permissions: u32,
    other: u64,
)
    requires
        state.valid(),
        state.is_shared(other),
    ensures
        ({
            let after = state.after_share(owner_task, start, len, permissions);
            &&& after.is_shared(other)
            &&& after.shared_with(other) == state.shared_with(other)
        }),
{
}

/// A call that changes a memory manager.
pub enum MemoryCall {
    PushRegion { region: MemoryRegion },
    SetPhase { phase: AllocatorPhase },
    SetBounds { lower: u64, upper: u64 },
    SetMaxLen { max_len: u64 },
    SetAlignment { alignment: u64 },
    Share { owner_task: TaskId, start: u64, len: u64, permissions: u32 },
    Seal { id: u64 },
}

impl MemoryState {
    /// The manager after one call, whether or not the call succeeded.
    pub open spec fn after(self, call: MemoryCall) -> MemoryState {
        match call {
            MemoryCall::PushRegion { region } => if push_error(self.regions, region) is None {
                MemoryState { regions: self.regions.push(region), ..self }
            } else {
                self
            },
            MemoryCall::SetPhase { phase } => if phase_step_allowed(self.phase, phase) {
                MemoryState { phase, ..self }
            } else {
                self
            },
            MemoryCall::SetBounds { lower, upper } => if 0 < lower < upper {
                MemoryState { lower_bound: lower, upper_bound: upper, ..self }
            } else {
                self
            },
            MemoryCall::SetMaxLen { max_len } => if max_len != 0 {
                MemoryState { max_len, ..self }
            } else {
                self
            },
            MemoryCall::SetAlignment { alignment } => if power_of_two(alignment) {
                MemoryState { alignment, ..self }
            } else {
                self
            },
            MemoryCall::Share {
                owner_task,
                start,
                len,
                permissions,
            } => if only_known_permissions(permissions) {
                self.after_share(owner_task, start, len, permissions)
            } else {
                self
            },
            MemoryCall::Seal { id } => self.after_seal(id),
        }
    }

    /// The manager after a sequence of calls.
    pub open spec fn after_all(self, calls: Seq<MemoryCall>) -> MemoryState
        decreases calls.len(),
    {
        if calls.len() == 0 {
            self
        } else {
            self.after_all(calls.drop_last()).after(calls.last())
        }
    }

    /// Whether `later` still holds what this manager preserved: every map entry
    /// and every shared range at its place, sealed ones still sealed, and the
    /// allocator no further back.
    pub open spec fn kept_in(self, later: MemoryState) -> bool {
        &&& self.regions.len() <= later.regions.len()
        &&& forall|i: int|
            0 <= i < self.regions.len() ==> #[trigger] self.regions[i] == later.regions[i]
        &&& self.phase as int <= later.phase as int
        &&& self.shared.len() <= later.shared.len()
        &&& forall|i: int|
            0 <= i < self.shared.len() ==> same_shared(#[trigger] self.shared[i], later.shared[i])
    }
}

/// Whether `later` is the same shared region at a later time.
pub open spec fn same_shared(region: SharedRegion, later: SharedRegion) -> bool {
    &&& later.handle.id == region.handle.id
    &&& later.handle.owner_task == region.handle.owner_task
    &&& later.start == region.start
    &&& later.len == region.len
    &&& region.sealed ==> later.sealed
    &&& permits(later.handle.permissions, PERMISSION_WRITE) ==> permits(
        region.handle.permissions,
        PERMISSION_WRITE,
    )
}

/// One call keeps a manager valid and loses nothing it preserved.
pub proof fn lemma_memory_step(state: MemoryState, call: MemoryCall)
    requires
        state.valid(),
    ensures
        state.after(call).valid(),
        state.kept_in(state.after(call)),
{
    let after = state.after(call);
    if let MemoryCall::Seal { id } = call {
        lemma_after_seal_valid(state, id);
        assert forall|i: int| 0 <= i < state.shared.len() implies same_shared(
            #[trigger] state.shared[i],
            after.shared[i],
        ) by {
            let bits = state.shared[i].handle.permissions;
            assert(((bits & !2u32) | 32u32) & 2u32 != 2u32) by (bit_vector);
        }
    }
    assert forall|i: int| 0 <= i < after.shared.len() implies valid_shared(
        #[trigger] after.shared[i],
        i,
    ) by {
        if i < state.shared.len() {
            assert(valid_shared(state.shared[i], i));
        }
    }
}

/// Whatever calls are made, the manager stays valid: the boot memory map is
/// preserved and stays free of overlaps, a sealed region stays sealed without
/// write permission, and the allocator never falls back.
pub proof fn law_memory_is_preserved(state: MemoryState, calls: Seq<MemoryCall>)
    requires
        state.valid(),
    ensures
        state.after_all(calls).valid(),
        state.kept_in(state.after_all(calls)),
    decreases calls.len(),
{
    if calls.len() > 0 {
        let before = state.after_all(calls.drop_last());
        let after = state.after_all(calls);
        law_memory_is_preserved(state, calls.drop_last());
        lemma_memory_step(before, calls.last());
        assert forall|i: int| 0 <= i < state.regions.len() implies #[trigger] state.regions[i]
            == after.regions[i] by {
            assert(before.regions[i] == after.regions[i]);
        }
        assert forall|i: int| 0 <= i < state.shared.len() implies same_shared(
            #[trigger] state.shared[i],
            after.shared[i],
        ) by {
            assert(same_shared(before.shared[i], after.shared[i]));
        }
    }
}

/// Sealing is permanent: after a region is sealed and any further calls, it is
/// sealed and grants no writes.
pub proof fn law_sealing_is_permanent(state: MemoryState, id: u64, calls: Seq<MemoryCall>)
    requires
        state.valid(),
        state.is_shared(id),
    ensures
        ({
            let later = state.after_seal(id).after_all(calls);
            &&& later.is_shared(id)
            &&& later.shared_with(id).sealed
            &&& permits(later.shared_with(id).handle.permissions, PERMISSION_SEALED)
            &&& !permits(later.shared_with(id).handle.permissions, PERMISSION_WRITE)
        }),
{
    lemma_after_seal_valid(state, id);
    law_memory_is_preserved(state.after_seal(id), calls);
    let later = state.after_seal(id).after_all(calls);
    assert(same_shared(state.after_seal(id).shared[id - 1], later.shared[id - 1]));
    assert(valid_shared(later.shared[id - 1], id - 1));
}

/// Sealing twice is sealing once.
pub proof fn law_sealing_is_idempotent(state: MemoryState, id: u64)
    requires
        state.valid(),
    ensures
        state.after_seal(id).after_seal(id) == state.after_seal(id),
{
    if state.is_shared(id) {
        let bits = state.shared_with(id).handle.permissions;
        assert((((bits & !2u32) | 32u32) & !2u32) | 32u32 == (bits & !2u32) | 32u32)
            by (bit_vector);
        assert(state.after_seal(id).after_seal(id).shared =~= state.after_seal(id).shared);
    }
}

/// A user range is accepted exactly if it is not empty, no longer than the
/// limit, wholly inside the user bounds and aligned.
pub proof fn law_suitable_ranges_are_accepted(state: MemoryState, ptr: u64, len: u64)
    requires
        state.valid(),
    ensures
        state.range_error(ptr, len) is None <==> {
            &&& 0 < len <= state.max_len
            &&& state.lower_bound <= ptr
            &&& ptr + len <= state.upper_bound
            &&& ptr % state.alignment == 0
        },
{
}

/// A refused range says why: too long, outside the bounds, or not a range the
/// kernel can use at all because it is null, empty, beyond the address space
/// or not aligned.
pub proof fn law_refused_ranges_say_why(state: MemoryState, ptr: u64, len: u64)
    requires
        state.valid(),
    ensures
        ({
            let inside = state.lower_bound <= ptr && ptr + len <= state.upper_bound;
            &&& state.range_error(ptr, len) == Some(KernelError::BufferTooLarge) <==> ptr != 0
                && len > state.max_len
            &&& state.range_error(ptr, len) == Some(KernelError::BufferOutOfRange) <==> {
                &&& ptr != 0
                &&& 0 < len <= state.max_len
                &&& ptr + len <= u64::MAX
                &&& !inside
            }
            &&& state.range_error(ptr, len) == Some(KernelError::InvalidUserBuffer) <==> {
                ||| ptr == 0
                ||| len == 0
                ||| len <= state.max_len && ptr + len > u64::MAX
                ||| len <= state.max_len && inside && ptr % state.alignment != 0
            }
        }),
{
}

/// A fresh manager accepts what lies between the first page and the upper half
/// of the address space, up to sixteen mebibytes at a time, at any alignment.
pub proof fn law_fresh_manager_accepts_user_memory(ptr: u64, len: u64)
    ensures
        MemoryManager::spec_new().range_error(ptr, len) is None <==> {
            &&& 0 < len <= 0x100_0000
            &&& 0x1000 <= ptr
            &&& ptr + len <= 0x8000_0000_0000
        },
        MemoryManager::spec_new().regions.len() == 0,
        MemoryManager::spec_new().shared.len() == 0,
        MemoryManager::spec_new().phase == AllocatorPhase::Uninitialized,
{
}

/// A user buffer is accepted exactly if its reserved field is zero, its flags
/// are among the three known ones and include every direction of the access,
/// whatever other known flags there are, and its range is accepted. Reserved
/// bits are complained about first, then the direction, then the range.
pub proof fn law_suitable_buffers_are_accepted(
    state: MemoryState,
    buffer: UserBuffer,
    access: BufferAccess,
)
    requires
        state.valid(),
    ensures
        ({
            let known = buffer.reserved == 0 && buffer.flags < 8;
            let readable = buffer.flags % 2 == 1;
            let writable = buffer.flags / 2 % 2 == 1;
            let directed = match access {
                BufferAccess::Read => readable,
                BufferAccess::Write => writable,
                BufferAccess::ReadWrite => readable && writable,
            };
            &&& state.buffer_error(buffer, access) is None <==> {
                &&& known
                &&& directed
                &&& 0 < buffer.len <= state.max_len
                &&& state.lower_bound <= buffer.ptr
                &&& buffer.ptr + buffer.len <= state.upper_bound
                &&& buffer.ptr % state.alignment == 0
            }
            &&& !known ==> state.buffer_error(buffer, access) == Some(KernelError::ReservedBits)
            &&& known && !directed ==> state.buffer_error(buffer, access) == Some(
                KernelError::InvalidUserBuffer,
            )
            &&& known && directed ==> state.buffer_error(buffer, access) == state.range_error(
                buffer.ptr,
                buffer.len,
            )
        }),
{
    let flags = buffer.flags;
    assert({
        &&& flags & !7u32 == 0 <==> flags < 8
        &&& flags & 1u32 == 1u32 <==> flags % 2 == 1
        &&& flags & 2u32 == 2u32 <==> flags / 2 % 2 == 1
        &&& flags & (1u32 | 2u32) == (1u32 | 2u32) <==> flags % 2 == 1 && flags / 2 % 2 == 1
    }) by (bit_vector);
}

/// A buffer may be both read and written exactly if it may be read and may be
/// written.
pub proof fn law_reading_and_writing_is_both(state: MemoryState, buffer: UserBuffer)
    requires
        state.valid(),
    ensures
        state.buffer_error(buffer, BufferAccess::ReadWrite) is None <==> state.buffer_error(
            buffer,
            BufferAccess::Read,
        ) is None && state.buffer_error(buffer, BufferAccess::Write) is None,
{
    law_suitable_buffers_are_accepted(state, buffer, BufferAccess::Read);
    law_suitable_buffers_are_accepted(state, buffer, BufferAccess::Write);
    law_suitable_buffers_are_accepted(state, buffer, BufferAccess::ReadWrite);
}

/// Permission bits are those of the ABI, in the order read, write, execute,
/// user, device, sealed; a mask is known exactly if it has no other bit, and it
/// permits each of them exactly if it has that bit.
pub proof fn law_permission_bits_are_stable(bits: u32)
    ensures
        only_known_permissions(bits) <==> bits < 64,
        permits(bits, PERMISSION_READ) <==> bits % 2 == 1,
        permits(bits, PERMISSION_WRITE) <==> bits / 2 % 2 == 1,
        permits(bits, PERMISSION_EXECUTE) <==> bits / 4 % 2 == 1,
        permits(bits, PERMISSION_USER) <==> bits / 8 % 2 == 1,
        permits(bits, PERMISSION_DEVICE) <==> bits / 16 % 2 == 1,
        permits(bits, PERMISSION_SEALED) <==> bits / 32 % 2 == 1,
{
    assert({
        &&& bits & !63u32 == 0 <==> bits < 64
        &&& bits & 1u32 == 1u32 <==> bits % 2 == 1
        &&& bits & 2u32 == 2u32 <==> bits / 2 % 2 == 1
        &&& bits & 4u32 == 4u32 <==> bits / 4 % 2 == 1
        &&& bits & 8u32 == 8u32 <==> bits / 8 % 2 == 1
        &&& bits & 16u32 == 16u32 <==> bits / 16 % 2 == 1
        &&& bits & 32u32 == 32u32 <==> bits / 32 % 2 == 1
    }) by (bit_vector);
}

/// Sealing takes the write permission away and nothing else: reading,
/// executing, userspace access and device memory are permitted exactly if they
/// were, and the region keeps its range, its owner and its identifier. No
/// other region and nothing else of the manager changes.
pub proof fn law_sealing_takes_only_the_write_permission(state: MemoryState, id: u64, other: u64)
    requires
        state.valid(),
        state.is_shared(id),
        state.is_shared(other),
    ensures
        ({
            let before = state.shared_with(id);
            let after = state.after_seal(id).shared_with(id);
            let held = before.handle.permissions;
            let left = after.handle.permissions;
            &&& permits(left, PERMISSION_READ) <==> permits(held, PERMISSION_READ)
            &&& permits(left, PERMISSION_EXECUTE) <==> permits(held, PERMISSION_EXECUTE)
            &&& permits(left, PERMISSION_USER) <==> permits(held, PERMISSION_USER)
            &&& permits(left, PERMISSION_DEVICE) <==> permits(held, PERMISSION_DEVICE)
            &&& permits(left, PERMISSION_SEALED)
            &&& !permits(left, PERMISSION_WRITE)
            &&& only_known_permissions(left)
            &&& after.sealed
            &&& after.start == before.start
            &&& after.len == before.len
            &&& after.handle.id == before.handle.id
            &&& after.handle.owner_task == before.handle.owner_task
            &&& state.after_seal(id).is_shared(id)
            &&& state.after_seal(id).is_shared(other)
            &&& other != id ==> state.after_seal(id).shared_with(other) == state.shared_with(
                other,
            )
            &&& state.after_seal(id).shared.len() == state.shared.len()
            &&& state.after_seal(id) == (MemoryState {
                shared: state.after_seal(id).shared,
                ..state
            })
        }),
{
    let bits = state.shared_with(id).handle.permissions;
    let left = state.after_seal(id).shared_with(id).handle.permissions;
    lemma_after_seal_valid(state, id);
    assert(valid_shared(state.after_seal(id).shared[id - 1], id - 1));
    assert(left == (bits & !2u32) | 32u32);
    assert({
        let sealed_bits = (bits & !2u32) | 32u32;
        &&& sealed_bits & 1u32 == bits & 1u32
        &&& sealed_bits & 4u32 == bits & 4u32
        &&& sealed_bits & 8u32 == bits & 8u32
        &&& sealed_bits & 16u32 == bits & 16u32
    }) by (bit_vector);
}

/// A range is shared exactly if it is one the kernel accepts from users, is not
/// asked for as sealed, and fewer than 32 regions are shared. It is shared
/// with the permissions asked for, under identifiers that count from one;
/// a refusal changes nothing.
pub proof fn law_suitable_ranges_are_shared(
    state: MemoryState,
    owner_task: TaskId,
    start: u64,
    len: u64,
    permissions: u32,
)
    requires
        state.valid(),
    ensures
        ({
            let accepted = state.range_error(start, len) is None;
            let as_sealed = permissions / 32 % 2 == 1;
            let room = state.shared.len() < 32;
            let result = state.share_result(owner_task, start, len, permissions);
            let after = state.after_share(owner_task, start, len, permissions);
            let handle = SharedMemoryHandle {
                id: (state.shared.len() + 1) as u64,
                owner_task,
                permissions,
            };
            &&& accepted && !as_sealed && room ==> {
                &&& result == Ok::<SharedMemoryHandle, KernelError>(handle)
                &&& after.shared == state.shared.push(
                    SharedRegion { handle, start, len, sealed: false },
                )
                &&& after == (MemoryState { shared: after.shared, ..state })
            }
            &&& !(accepted && !as_sealed && room) ==> result is Err && after == state
            &&& !accepted ==> result == Err::<SharedMemoryHandle, KernelError>(
                state.range_error(start, len).unwrap(),
            )
            &&& accepted && as_sealed ==> result == Err::<SharedMemoryHandle, KernelError>(
                KernelError::Sealed,
            )
            &&& accepted && !as_sealed && !room ==> result == Err::<
                SharedMemoryHandle,
                KernelError,
            >(KernelError::CapacityExceeded)
        }),
{
    law_permission_bits_are_stable(permissions);
}

/// Shared regions are known by the identifiers they were given, from one on.
pub proof fn law_identifiers_name_shared_regions(state: MemoryState, id: u64)
    requires
        state.valid(),
    ensures
        state.is_shared(id) <==> exists|i: int|
            0 <= i < state.shared.len() && (#[trigger] state.shared[i]).handle.id == id,
        state.is_shared(id) ==> state.shared_with(id).handle.id == id,
        !state.is_shared(0),
        !state.is_shared(id) ==> state.after_seal(id) == state,
{
    if state.is_shared(id) {
        assert(valid_shared(state.shared[id - 1], id - 1));
    }
    assert forall|i: int|
        0 <= i < state.shared.len() && (#[trigger] state.shared[i]).handle.id
            == id implies state.is_shared(id) by {
        assert(valid_shared(state.shared[i], i));
    }
}

/// The allocator goes from nothing to boot bump, from there to frames, from
/// there to the heap; any phase may be set again, and no other step is allowed.
pub proof fn law_allocator_phases_in_boot_order(from: AllocatorPhase, to: AllocatorPhase)
    ensures
        phase_step_allowed(from, to) <==> {
            ||| from == to
            ||| from == AllocatorPhase::Uninitialized && to == AllocatorPhase::BootBump
            ||| from == AllocatorPhase::BootBump && to == AllocatorPhase::Frame
            ||| from == AllocatorPhase::Frame && to == AllocatorPhase::Heap
        },
{
}

/// Whether an address lies in a region.
pub open spec fn in_region(region: MemoryRegion, address: int) -> bool {
    region.start <= address < region.start + region.len
}

/// Two regions that are not empty overlap exactly if some address lies in both.
pub proof fn law_overlap_is_a_common_address(a: MemoryRegion, b: MemoryRegion)
    requires
        a.len != 0,
        b.len != 0,
    ensures
        a.meets(b) <==> b.meets(a),
        a.meets(b) <==> exists|address: int| #[trigger]
            in_region(a, address) && #[trigger] in_region(b, address),
{
    let first = if a.start <= b.start {
        b.start as int
    } else {
        a.start as int
    };
    if a.meets(b) {
        assert(in_region(a, first) && in_region(b, first));
    }
}

/// A region holds a range that is not empty exactly if every address of the
/// range lies in the region, and its end is an address.
pub proof fn law_holding_is_by_address(region: MemoryRegion, start: u64, len: u64)
    requires
        len != 0,
    ensures
        region.holds(start, len) <==> {
            &&& start + len <= u64::MAX
            &&& forall|address: int|
                start <= address < start + len ==> #[trigger] in_region(region, address)
        },
{
    if !region.holds(start, len) && start + len <= u64::MAX {
        let last = start + len - 1;
        assert(!in_region(region, start as int) || !in_region(region, last));
    }
}

/// A region is added to a map exactly if fewer than 64 are there and it
/// overlaps none of them; a full map is complained about first.
pub proof fn law_map_takes_separate_regions(regions: Seq<MemoryRegion>, region: MemoryRegion)
    ensures
        push_error(regions, region) is None <==> {
            &&& regions.len() < 64
            &&& forall|i: int| 0 <= i < regions.len() ==> !(#[trigger] regions[i]).meets(region)
        },
        regions.len() >= 64 ==> push_error(regions, region) == Some(KernelError::CapacityExceeded),
        regions.len() < 64 && (exists|i: int|
            0 <= i < regions.len() && (#[trigger] regions[i]).meets(region)) ==> push_error(
            regions,
            region,
        ) == Some(KernelError::Overlap),
{
}

/// What a lookup finds holds the range, and no region before it does.
pub proof fn law_lookups_find_the_first_holder(
    regions: Seq<MemoryRegion>,
    start: u64,
    len: u64,
    i: int,
    j: int,
)
    requires
        is_first_holder(regions, start, len, i),
        0 <= j < i,
    ensures
        regions[i].holds(start, len),
        !regions[j].holds(start, len),
{
}

/// Totals add up: an empty map has no bytes of any kind, and a region adds its
/// length to the total of its own kind and nothing to any other.
pub proof fn law_totals_add_up(
    regions: Seq<MemoryRegion>,
    region: MemoryRegion,
    kind: MemoryRegionKind,
)
    ensures
        total_of_kind(Seq::empty(), kind) == 0,
        region.kind == kind ==> total_of_kind(regions.push(region), kind) == total_of_kind(
            regions,
            kind,
        ) + region.len,
        region.kind != kind ==> total_of_kind(regions.push(region), kind) == total_of_kind(
            regions,
            kind,
        ),
{
    assert(regions.push(region).drop_last() =~= regions);
}

/// The limits on user memory are what they were last set to: bounds that are
/// not empty and leave out address zero, a length that is not zero, and an
/// alignment that is a power of two take effect, one at a time; anything else
/// changes nothing.
pub proof fn law_limits_are_what_they_were_set_to(
    state: MemoryState,
    lower: u64,
    upper: u64,
    max_len: u64,
    alignment: u64,
    exponent: nat,
)
    ensures
        ({
            let bounded = state.after(MemoryCall::SetBounds { lower, upper });
            let limited = state.after(MemoryCall::SetMaxLen { max_len });
            let aligned = state.after(MemoryCall::SetAlignment { alignment });
            &&& 0 < lower < upper ==> bounded == (MemoryState {
                lower_bound: lower,
                upper_bound: upper,
                ..state
            })
            &&& lower == 0 || lower >= upper ==> bounded == state
            &&& max_len != 0 ==> limited == (MemoryState { max_len, ..state })
            &&& max_len == 0 ==> limited == state
            &&& alignment == vstd::arithmetic::power2::pow2(exponent) ==> aligned == (MemoryState {
                alignment,
                ..state
            })
            &&& aligned == state || aligned.alignment == alignment && exists|n: nat|
                #[trigger] vstd::arithmetic::power2::pow2(n) == alignment
        }),
{
}

} // verus!
