//! Capability handles and deny-by-default authority checks.
//!
//! Authority is a compact bitset. Handles to it live in a bounded registry, so
//! attenuation, revocation, and authorization can be exercised without any
//! platform support.
use vstd::prelude::*;

use crate::error::{KernelError, KernelResult};

verus! {

/// Maximum capability records held by the host-mode registry.
pub const MAX_CAPABILITY_RECORDS: usize = 64;

/// Stable task identifier used in capability ownership metadata.
pub type TaskId = u64;

/// Kernel-recognized authority bits.
///
/// The position of a capability in this declaration is its bit position inside
/// a [`CapabilitySet`]. New authority bits must be added deliberately because
/// unknown bits are rejected at trust boundaries.
#[derive(Clone, Copy, Debug, Eq, PartialEq, Structural)]
pub enum Capability {
    /// Spawn a new task.
    TaskSpawn,
    /// Inspect, cancel, or join another task.
    TaskManage,
    /// Map or unmap user memory.
    MemoryMap,
    /// Create, export, or seal shared memory handles.
    MemoryShare,
    /// Enumerate devices.
    DeviceList,
    /// Open a device handle.
    DeviceOpen,
    /// Call an opened device operation.
    DeviceCall,
    /// Invoke model or accelerator inference.
    CognitionInfer,
    /// Query or mutate cognitive memory.
    CognitionMemory,
    /// Derive, revoke, attest, or otherwise administer capabilities.
    SecurityManage,
    /// Append records to the audit stream.
    AuditAppend,
    /// Query audit records.
    AuditQuery,
    /// Verify audit ranges and proofs.
    AuditVerify,
    /// Read or emit debug trace data.
    DebugTrace,
    /// Run privileged kernel maintenance tasks.
    KernelMaintenance,
}

impl Capability {
    /// The mask whose only bit is the capability's position.
    pub open spec fn spec_bit(self) -> u64 {
        1u64 << (self as u64)
    }

    /// The dotted name of each capability.
    pub open spec fn spec_name(self) -> &'static str {
        match self {
            Capability::TaskSpawn => "task.spawn",
            Capability::TaskManage => "task.manage",
            Capability::MemoryMap => "memory.map",
            Capability::MemoryShare => "memory.share",
            Capability::DeviceList => "device.list",
            Capability::DeviceOpen => "device.open",
            Capability::DeviceCall => "device.call",
            Capability::CognitionInfer => "cognition.infer",
            Capability::CognitionMemory => "cognition.memory",
            Capability::SecurityManage => "security.manage",
            Capability::AuditAppend => "audit.append",
            Capability::AuditQuery => "audit.query",
            Capability::AuditVerify => "audit.verify",
            Capability::DebugTrace => "debug.trace",
            Capability::KernelMaintenance => "kernel.maintenance",
        }
    }

    /// Returns the bit mask for this capability.
    pub fn bit(self) -> (mask: u64)
        ensures
            mask == self.spec_bit(),
    {
        1u64 << (self as u64)
    }

    /// Stable human-readable name for diagnostics and docs.
    pub fn name(self) -> (label: &'static str)
        ensures
            label == self.spec_name(),
    {
        match self {
            Self::TaskSpawn => "task.spawn",
            Self::TaskManage => "task.manage",
            Self::MemoryMap => "memory.map",
            Self::MemoryShare => "memory.share",
            Self::DeviceList => "device.list",
            Self::DeviceOpen => "device.open",
            Self::DeviceCall => "device.call",
            Self::CognitionInfer => "cognition.infer",
            Self::CognitionMemory => "cognition.memory",
            Self::SecurityManage => "security.manage",
            Self::AuditAppend => "audit.append",
            Self::AuditQuery => "audit.query",
            Self::AuditVerify => "audit.verify",
            Self::DebugTrace => "debug.trace",
            Self::KernelMaintenance => "kernel.maintenance",
        }
    }
}

/// Mask of all currently defined capability bits.
pub const KNOWN_CAPABILITY_BITS: u64 = 0x7fff;

/// Whether a raw mask only uses defined capability bits.
pub open spec fn only_known_bits(bits: u64) -> bool {
    bits & !KNOWN_CAPABILITY_BITS == 0
}

/// Whether a raw mask grants a capability.
pub open spec fn grants(bits: u64, capability: Capability) -> bool {
    bits & capability.spec_bit() != 0
}

/// Whether every bit of `required` is in `held`.
pub open spec fn covers(held: u64, required: u64) -> bool {
    held & required == required
}

proof fn lemma_bit_meets_bit(a: Capability, b: Capability)
    ensures
        grants(a.spec_bit(), b) <==> a == b,
        a.spec_bit() != 0,
        only_known_bits(a.spec_bit()),
{
    let i = a as u64;
    let j = b as u64;
    assert(i < 15 && j < 15 ==> (((1u64 << i) & (1u64 << j) != 0) <==> i == j)) by (bit_vector);
    assert(i < 15 ==> (1u64 << i) != 0 && (1u64 << i) & !0x7fffu64 == 0) by (bit_vector);
}

/// Compact set of authority bits carried by tasks and handles.
///
/// The view is the raw mask.
#[derive(Clone, Copy, Debug, Eq, PartialEq, Structural)]
pub struct CapabilitySet {
    bits: u64,
}

impl View for CapabilitySet {
    type V = u64;

    closed spec fn view(&self) -> u64 {
        self.bits
    }
}

impl CapabilitySet {
    /// The set without any authority.
    pub closed spec fn spec_empty() -> CapabilitySet {
        CapabilitySet { bits: 0 }
    }

    /// Whether the set grants a capability.
    pub open spec fn has(self, capability: Capability) -> bool {
        grants(self@, capability)
    }

    /// Whether the set includes every bit of another.
    pub open spec fn has_all(self, required: CapabilitySet) -> bool {
        covers(self@, required@)
    }

    /// Empty set used for deny-by-default callers.
    pub fn empty() -> (set: Self)
        ensures
            set == Self::spec_empty(),
            set@ == 0,
            forall|c: Capability| !set.has(c),
    {
        let set = Self { bits: 0 };
        proof {
            lemma_empty_set_grants_nothing();
        }
        set
    }

    /// Constructs a set containing a single capability.
    pub fn single(capability: Capability) -> (set: Self)
        ensures
            set@ == capability.spec_bit(),
            forall|c: Capability| #[trigger] set.has(c) <==> c == capability,
    {
        let set = Self { bits: capability.bit() };
        proof {
            assert forall|c: Capability| #[trigger] set.has(c) <==> c == capability by {
                lemma_bit_meets_bit(capability, c);
            }
        }
        set
    }

    /// Constructs a set from raw bits after rejecting reserved authority bits.
    pub fn from_bits(bits: u64) -> (result: KernelResult<Self>)
        ensures
            only_known_bits(bits) ==> (result matches Ok(set) && set@ == bits),
            !only_known_bits(bits) ==> result == Err::<Self, KernelError>(
                KernelError::ReservedBits,
            ),
    {
        if bits & !KNOWN_CAPABILITY_BITS == 0 {
            Ok(Self { bits })
        } else {
            Err(KernelError::ReservedBits)
        }
    }

    /// Constructs a set from known bits without validation.
    ///
    /// Use this only for constants built from [`Capability`] values.
    pub fn from_known_bits(bits: u64) -> (set: Self)
        ensures
            set@ == bits,
    {
        Self { bits }
    }

    /// Returns the raw authority mask.
    pub fn bits(self) -> (bits: u64)
        ensures
            bits == self@,
    {
        self.bits
    }

    /// Returns `true` when no authority is present.
    pub fn is_empty(self) -> (empty: bool)
        ensures
            empty == (self@ == 0),
            empty ==> forall|c: Capability| !self.has(c),
    {
        proof {
            lemma_empty_set_grants_nothing();
        }
        self.bits == 0
    }

    /// Returns `true` when this set contains the capability.
    pub fn contains(self, capability: Capability) -> (held: bool)
        ensures
            held == self.has(capability),
    {
        self.bits & capability.bit() != 0
    }

    /// Returns `true` when all capabilities in `required` are present.
    pub fn contains_all(self, required: Self) -> (held: bool)
        ensures
            held == self.has_all(required),
    {
        self.bits & required.bits == required.bits
    }

    /// Returns a set with an additional known capability.
    pub fn with(self, capability: Capability) -> (set: Self)
        ensures
            set@ == self@ | capability.spec_bit(),
            forall|c: Capability| #[trigger] set.has(c) <==> (self.has(c) || c == capability),
    {
        let set = Self { bits: self.bits | capability.bit() };
        proof {
            assert forall|c: Capability| #[trigger] set.has(c) <==> (self.has(c) || c
                == capability) by {
                lemma_bit_meets_bit(capability, c);
                let held = self@;
                let added = capability.spec_bit();
                let mask = c.spec_bit();
                assert((held | added) & mask != 0 <==> (held & mask != 0 || added & mask != 0))
                    by (bit_vector);
            }
        }
        set
    }

    /// Returns the intersection of two capability sets.
    pub fn intersect(self, other: Self) -> (set: Self)
        ensures
            set@ == self@ & other@,
            forall|c: Capability| #[trigger] set.has(c) <==> (self.has(c) && other.has(c)),
    {
        let set = Self { bits: self.bits & other.bits };
        proof {
            assert forall|c: Capability| #[trigger] set.has(c) <==> (self.has(c)
                && other.has(c)) by {
                let a = self@;
                let b = other@;
                let i = c as u64;
                assert(i < 15 ==> ((a & b) & (1u64 << i) != 0 <==> (a & (1u64 << i) != 0 && b & (
                1u64 << i) != 0))) by (bit_vector);
            }
        }
        set
    }

    /// Derives an attenuated set from a parent authority set.
    pub fn derive(self, requested: Self) -> (result: KernelResult<Self>)
        ensures
            self.has_all(requested) ==> result == Ok::<Self, KernelError>(requested),
            !self.has_all(requested) ==> result == Err::<Self, KernelError>(
                KernelError::MissingCapability,
            ),
    {
        if self.contains_all(requested) {
            Ok(requested)
        } else {
            Err(KernelError::MissingCapability)
        }
    }

    /// Ensures that a caller holds `required`.
    pub fn require(self, required: Capability) -> (result: KernelResult<()>)
        ensures
            self.has(required) ==> result == Ok::<(), KernelError>(()),
            !self.has(required) ==> result == Err::<(), KernelError>(
                KernelError::MissingCapability,
            ),
    {
        if self.contains(required) {
            Ok(())
        } else {
            Err(KernelError::MissingCapability)
        }
    }
}

impl Default for CapabilitySet {
    fn default() -> (set: Self)
        ensures
            set == Self::spec_empty(),
            set@ == 0,
    {
        Self::empty()
    }
}

proof fn lemma_empty_set_grants_nothing()
    ensures
        forall|c: Capability| !grants(0, c),
{
    assert forall|c: Capability| !grants(0, c) by {
        let mask = c.spec_bit();
        assert(0u64 & mask == 0) by (bit_vector);
    }
}

/// The empty set grants nothing, so a caller without a grant is denied.
pub proof fn law_deny_by_default(capability: Capability)
    ensures
        CapabilitySet::spec_empty()@ == 0,
        !CapabilitySet::spec_empty().has(capability),
        !grants(0, capability),
{
    lemma_empty_set_grants_nothing();
}

/// A set is determined by its mask.
pub proof fn law_sets_with_equal_masks_are_equal(a: CapabilitySet, b: CapabilitySet)
    requires
        a@ == b@,
    ensures
        a == b,
{
}

/// Every capability is a known bit, and every mask of known bits that is not
/// empty grants some capability.
pub proof fn law_known_bits_are_the_capabilities(bits: u64)
    ensures
        forall|c: Capability| only_known_bits(#[trigger] c.spec_bit()) && c.spec_bit() != 0,
        only_known_bits(bits) && bits != 0 ==> exists|c: Capability| grants(bits, c),
{
    assert forall|c: Capability| only_known_bits(#[trigger] c.spec_bit()) && c.spec_bit()
        != 0 by {
        lemma_bit_meets_bit(c, c);
    }
    if forall|c: Capability| !grants(bits, c) {
        lemma_covers_by_capability(0, bits);
        assert(0u64 & bits == 0) by (bit_vector);
    }
}

proof fn lemma_covers_by_capability(held: u64, required: u64)
    requires
        forall|c: Capability| grants(required, c) ==> grants(held, c),
    ensures
        only_known_bits(required) ==> covers(held, required),
{
    assert(grants(required, Capability::TaskSpawn) ==> grants(held, Capability::TaskSpawn));
    assert(grants(required, Capability::TaskManage) ==> grants(held, Capability::TaskManage));
    assert(grants(required, Capability::MemoryMap) ==> grants(held, Capability::MemoryMap));
    assert(grants(required, Capability::MemoryShare) ==> grants(held, Capability::MemoryShare));
    assert(grants(required, Capability::DeviceList) ==> grants(held, Capability::DeviceList));
    assert(grants(required, Capability::DeviceOpen) ==> grants(held, Capability::DeviceOpen));
    assert(grants(required, Capability::DeviceCall) ==> grants(held, Capability::DeviceCall));
    assert(grants(required, Capability::CognitionInfer) ==> grants(
        held,
        Capability::CognitionInfer,
    ));
    assert(grants(required, Capability::CognitionMemory) ==> grants(
        held,
        Capability::CognitionMemory,
    ));
    assert(grants(required, Capability::SecurityManage) ==> grants(
        held,
        Capability::SecurityManage,
    ));
    assert(grants(required, Capability::AuditAppend) ==> grants(held, Capability::AuditAppend));
    assert(grants(required, Capability::AuditQuery) ==> grants(held, Capability::AuditQuery));
    assert(grants(required, Capability::AuditVerify) ==> grants(held, Capability::AuditVerify));
    assert(grants(required, Capability::DebugTrace) ==> grants(held, Capability::DebugTrace));
    assert(grants(required, Capability::KernelMaintenance) ==> grants(
        held,
        Capability::KernelMaintenance,
    ));
    assert({
        &&& required & (1u64 << 0) != 0 ==> held & (1u64 << 0) != 0
        &&& required & (1u64 << 1) != 0 ==> held & (1u64 << 1) != 0
        &&& required & (1u64 << 2) != 0 ==> held & (1u64 << 2) != 0
        &&& required & (1u64 << 3) != 0 ==> held & (1u64 << 3) != 0
        &&& required & (1u64 << 4) != 0 ==> held & (1u64 << 4) != 0
        &&& required & (1u64 << 5) != 0 ==> held & (1u64 << 5) != 0
        &&& required & (1u64 << 6) != 0 ==> held & (1u64 << 6) != 0
        &&& required & (1u64 << 7) != 0 ==> held & (1u64 << 7) != 0
        &&& required & (1u64 << 8) != 0 ==> held & (1u64 << 8) != 0
        &&& required & (1u64 << 9) != 0 ==> held & (1u64 << 9) != 0
        &&& required & (1u64 << 10) != 0 ==> held & (1u64 << 10) != 0
        &&& required & (1u64 << 11) != 0 ==> held & (1u64 << 11) != 0
        &&& required & (1u64 << 12) != 0 ==> held & (1u64 << 12) != 0
        &&& required & (1u64 << 13) != 0 ==> held & (1u64 << 13) != 0
        &&& required & (1u64 << 14) != 0 ==> held & (1u64 << 14) != 0
        &&& required & !0x7fffu64 == 0
    } ==> held & required == required) by (bit_vector);
}

/// Covering is attenuation: what a covered mask grants, the covering one
/// grants, and for masks of known bits the two notions coincide.
pub proof fn law_covering_is_attenuation(held: u64, required: u64)
    ensures
        covers(held, required) ==> forall|c: Capability|
            grants(required, c) ==> #[trigger] grants(held, c),
        only_known_bits(required) && (forall|c: Capability|
            grants(required, c) ==> #[trigger] grants(held, c)) ==> covers(held, required),
{
    if covers(held, required) {
        assert forall|c: Capability| grants(required, c) implies #[trigger] grants(held, c) by {
            let mask = c.spec_bit();
            assert(held & required == required && required & mask != 0 ==> held & mask != 0)
                by (bit_vector);
        }
    }
    if forall|c: Capability| grants(required, c) ==> #[trigger] grants(held, c) {
        lemma_covers_by_capability(held, required);
    }
}

/// Covering is transitive: deriving from a derived set never widens authority.
pub proof fn law_covering_is_transitive(a: u64, b: u64, c: u64)
    requires
        covers(a, b),
        covers(b, c),
    ensures
        covers(a, c),
{
    assert(a & b == b && b & c == c ==> a & c == c) by (bit_vector);
}

/// ABI-safe capability handle metadata.
#[derive(Clone, Copy, Debug, Eq, PartialEq, Structural)]
pub struct CapabilityHandle {
    /// Registry-assigned handle identifier. Zero is invalid.
    pub id: u64,
    /// Attenuated rights represented by [`CapabilitySet::bits`].
    pub rights: u64,
    /// Task that owns this handle.
    pub owner_task: TaskId,
    /// Monotonic generation used to avoid stale-handle reuse.
    pub generation: u32,
}

impl CapabilityHandle {
    /// Returns an invalid zero handle.
    pub fn invalid() -> (handle: Self)
        ensures
            handle == (CapabilityHandle { id: 0, rights: 0, owner_task: 0, generation: 0 }),
    {
        Self { id: 0, rights: 0, owner_task: 0, generation: 0 }
    }

    /// Returns the handle rights as a validated capability set.
    pub fn rights(self) -> (result: KernelResult<CapabilitySet>)
        ensures
            only_known_bits(self.rights) ==> (result matches Ok(set) && set@ == self.rights),
            !only_known_bits(self.rights) ==> result == Err::<CapabilitySet, KernelError>(
                KernelError::ReservedBits,
            ),
    {
        CapabilitySet::from_bits(self.rights)
    }
}

/// What a capability registry holds: the live handles by identifier, and what
/// the next issued handle will be stamped with.
#[verifier::ext_equal]
pub struct RegistryState {
    pub live: Map<u64, CapabilityHandle>,
    pub next_id: u64,
    pub next_generation: u32,
}

impl RegistryState {
    /// Live handles are filed under their own identifier, identifiers are
    /// never zero and never reach the next one to be assigned, and no more
    /// than the capacity are live.
    pub open spec fn valid(self) -> bool {
        &&& self.live.dom().finite()
        &&& self.live.dom().len() <= MAX_CAPABILITY_RECORDS
        &&& 1 <= self.next_id
        &&& 1 <= self.next_generation
        &&& forall|id: u64| #[trigger]
            self.live.contains_key(id) ==> {
                &&& self.live[id].id == id
                &&& 1 <= id < self.next_id
                &&& 1 <= self.live[id].generation
            }
    }

    /// Whether a handle is live: its identifier is, under the same generation.
    pub open spec fn is_live(self, handle: CapabilityHandle) -> bool {
        self.live.contains_key(handle.id) && self.live[handle.id].generation
            == handle.generation
    }

    /// The rights mask a handle resolves to. They are those on record, not
    /// those the presented handle claims.
    pub open spec fn resolved(self, handle: CapabilityHandle) -> Result<u64, KernelError> {
        if !self.is_live(handle) {
            Err(KernelError::NotFound)
        } else if !only_known_bits(self.live[handle.id].rights) {
            Err(KernelError::ReservedBits)
        } else {
            Ok(self.live[handle.id].rights)
        }
    }

    /// Why a handle cannot be issued now, if it cannot.
    pub open spec fn issue_error(self) -> Option<KernelError> {
        if self.live.dom().len() >= MAX_CAPABILITY_RECORDS {
            Some(KernelError::CapacityExceeded)
        } else if self.next_id == u64::MAX {
            Some(KernelError::Internal)
        } else {
            None
        }
    }

    /// The handle that would be issued now.
    pub open spec fn issued_handle(self, owner_task: TaskId, rights: u64) -> CapabilityHandle {
        CapabilityHandle {
            id: self.next_id,
            rights,
            owner_task,
            generation: self.next_generation,
        }
    }

    /// The registry after that handle is issued. Generations restart at one
    /// once they are exhausted.
    pub open spec fn issued(self, owner_task: TaskId, rights: u64) -> RegistryState {
        RegistryState {
            live: self.live.insert(self.next_id, self.issued_handle(owner_task, rights)),
            next_id: (self.next_id + 1) as u64,
            next_generation: if self.next_generation == u32::MAX {
                1
            } else {
                (self.next_generation + 1) as u32
            },
        }
    }

    /// Why a child handle cannot be derived from `parent`, if it cannot.
    pub open spec fn derive_error(self, parent: CapabilityHandle, requested: u64) -> Option<
        KernelError,
    > {
        match self.resolved(parent) {
            Err(error) => Some(error),
            Ok(rights) => if !covers(rights, requested) {
                Some(KernelError::MissingCapability)
            } else {
                self.issue_error()
            },
        }
    }

    /// The registry after a live handle is revoked.
    pub open spec fn revoked(self, handle: CapabilityHandle) -> RegistryState {
        RegistryState { live: self.live.remove(handle.id), ..self }
    }
}

#[derive(Clone, Copy, Debug, Eq, PartialEq, Structural)]
struct CapabilityRecord {
    handle: CapabilityHandle,
    revoked: bool,
}

/// Bounded capability registry used by the host-mode kernel.
#[derive(Clone, Debug, Eq, PartialEq)]
pub struct CapabilityRegistry {
    records: [CapabilityRecord; MAX_CAPABILITY_RECORDS],
    next_id: u64,
    next_generation: u32,
}

/// Identifiers of the records that are not revoked.
spec fn live_ids(records: Seq<CapabilityRecord>) -> Set<u64>
    decreases records.len(),
{
    if records.len() == 0 {
        Set::empty()
    } else if records.last().revoked {
        live_ids(records.drop_last())
    } else {
        live_ids(records.drop_last()).insert(records.last().handle.id)
    }
}

/// Live records carry different, nonzero identifiers.
spec fn ids_distinct(records: Seq<CapabilityRecord>) -> bool {
    &&& forall|i: int|
        0 <= i < records.len() && !(#[trigger] records[i]).revoked ==> records[i].handle.id != 0
    &&& forall|i: int, j: int|
        0 <= i < j < records.len() && !(#[trigger] records[i]).revoked && !(
        #[trigger] records[j]).revoked ==> records[i].handle.id != records[j].handle.id
}

spec fn has_live_id(records: Seq<CapabilityRecord>, id: u64) -> bool {
    exists|i: int|
        0 <= i < records.len() && !(#[trigger] records[i]).revoked && records[i].handle.id == id
}

spec fn slot_of(records: Seq<CapabilityRecord>, id: u64) -> int {
    choose|i: int|
        0 <= i < records.len() && !(#[trigger] records[i]).revoked && records[i].handle.id == id
}

spec fn live_map(records: Seq<CapabilityRecord>) -> Map<u64, CapabilityHandle> {
    Map::new(|id: u64| has_live_id(records, id), |id: u64| records[slot_of(records, id)].handle)
}

proof fn lemma_live_ids(records: Seq<CapabilityRecord>)
    requires
        ids_distinct(records),
    ensures
        live_ids(records).finite(),
        live_ids(records).len() <= records.len(),
        live_ids(records).len() == records.len() <==> forall|i: int|
            0 <= i < records.len() ==> !(#[trigger] records[i]).revoked,
        forall|id: u64| #[trigger] live_ids(records).contains(id) <==> has_live_id(records, id),
    decreases records.len(),
{
    if records.len() > 0 {
        let rest = records.drop_last();
        assert(forall|i: int| 0 <= i < rest.len() ==> rest[i] == records[i]);
        lemma_live_ids(rest);
        assert forall|id: u64| #[trigger]
            live_ids(records).contains(id) <==> has_live_id(records, id) by {
            if has_live_id(rest, id) {
                let i = slot_of(rest, id);
                assert(records[i] == rest[i]);
            }
            if has_live_id(records, id) {
                let i = slot_of(records, id);
                if i < rest.len() {
                    assert(rest[i] == records[i]);
                }
            }
            if !records.last().revoked && id == records.last().handle.id {
                assert(records[records.len() - 1] == records.last());
            }
        }
        if !records.last().revoked {
            let last_id = records.last().handle.id;
            assert(!has_live_id(rest, last_id)) by {
                if has_live_id(rest, last_id) {
                    let i = slot_of(rest, last_id);
                    assert(records[i] == rest[i]);
                    assert(records[records.len() - 1] == records.last());
                }
            }
            assert(!live_ids(rest).contains(last_id));
        }
    }
}

proof fn lemma_live_map(records: Seq<CapabilityRecord>)
    requires
        ids_distinct(records),
    ensures
        live_map(records).dom() == live_ids(records),
        live_map(records).dom().finite(),
        live_map(records).dom().len() <= records.len(),
        live_map(records).dom().len() == records.len() <==> forall|i: int|
            0 <= i < records.len() ==> !(#[trigger] records[i]).revoked,
        forall|i: int|
            0 <= i < records.len() && !(#[trigger] records[i]).revoked ==> live_map(
                records,
            ).contains_key(records[i].handle.id) && live_map(records)[records[i].handle.id]
                == records[i].handle,
{
    lemma_live_ids(records);
    assert(live_map(records).dom() =~= live_ids(records));
    assert forall|i: int|
        0 <= i < records.len() && !(#[trigger] records[i]).revoked implies live_map(
        records,
    ).contains_key(records[i].handle.id) && live_map(records)[records[i].handle.id]
        == records[i].handle by {
        let id = records[i].handle.id;
        assert(has_live_id(records, id));
        let k = slot_of(records, id);
        assert(!records[k].revoked && records[k].handle.id == id);
        assert(k == i);
    }
}

/// Filling a free record adds its handle to the live map.
proof fn lemma_fill_record(records: Seq<CapabilityRecord>, slot: int, handle: CapabilityHandle)
    requires
        ids_distinct(records),
        0 <= slot < records.len(),
        records[slot].revoked,
        handle.id != 0,
        !live_map(records).contains_key(handle.id),
    ensures
        ids_distinct(records.update(slot, CapabilityRecord { handle, revoked: false })),
        live_map(records.update(slot, CapabilityRecord { handle, revoked: false })) == live_map(
            records,
        ).insert(handle.id, handle),
{
    let filled = records.update(slot, CapabilityRecord { handle, revoked: false });
    lemma_live_map(records);
    assert(ids_distinct(filled));
    lemma_live_map(filled);
    assert forall|id: u64|
        live_map(filled).contains_key(id) <==> live_map(records).insert(
            handle.id,
            handle,
        ).contains_key(id) by {
        if has_live_id(records, id) {
            let i = slot_of(records, id);
            assert(filled[i] == records[i]);
        }
        if has_live_id(filled, id) {
            let i = slot_of(filled, id);
            if i != slot {
                assert(filled[i] == records[i]);
            }
        }
        assert(filled[slot].handle.id == handle.id);
    }
    assert forall|id: u64| #[trigger] live_map(filled).contains_key(id) implies live_map(filled)[id]
        == live_map(records).insert(handle.id, handle)[id] by {
        let i = slot_of(filled, id);
        assert(filled[i].handle.id == id);
        if i != slot {
            assert(filled[i] == records[i]);
        }
    }
    assert(live_map(filled) =~= live_map(records).insert(handle.id, handle));
}

/// Revoking a live record takes its handle out of the live map.
proof fn lemma_revoke_record(records: Seq<CapabilityRecord>, slot: int)
    requires
        ids_distinct(records),
        0 <= slot < records.len(),
        !records[slot].revoked,
    ensures
        ids_distinct(
            records.update(slot, CapabilityRecord { revoked: true, ..records[slot] }),
        ),
        live_map(records.update(slot, CapabilityRecord { revoked: true, ..records[slot] }))
            == live_map(records).remove(records[slot].handle.id),
{
    let id0 = records[slot].handle.id;
    let rest = records.update(slot, CapabilityRecord { revoked: true, ..records[slot] });
    lemma_live_map(records);
    assert(ids_distinct(rest));
    lemma_live_map(rest);
    assert forall|id: u64|
        live_map(rest).contains_key(id) <==> live_map(records).remove(id0).contains_key(id) by {
        if has_live_id(records, id) && id != id0 {
            let i = slot_of(records, id);
            assert(rest[i] == records[i]);
        }
        if has_live_id(rest, id) {
            let i = slot_of(rest, id);
            assert(i != slot);
            assert(rest[i] == records[i]);
        }
    }
    assert forall|id: u64| #[trigger] live_map(rest).contains_key(id) implies live_map(rest)[id]
        == live_map(records).remove(id0)[id] by {
        let i = slot_of(rest, id);
        assert(i != slot && rest[i] == records[i]);
    }
    assert(live_map(rest) =~= live_map(records).remove(id0));
}

impl View for CapabilityRegistry {
    type V = RegistryState;

    closed spec fn view(&self) -> RegistryState {
        RegistryState {
            live: live_map(self.records@),
            next_id: self.next_id,
            next_generation: self.next_generation,
        }
    }
}

impl CapabilityRegistry {
    /// Records that are not revoked carry different, nonzero identifiers.
    pub closed spec fn repr_ok(&self) -> bool {
        ids_distinct(self.records@)
    }

    /// The registry is in a state its operations can produce.
    pub open spec fn wf(&self) -> bool {
        self.repr_ok() && self@.valid()
    }

    /// Creates an empty registry.
    pub fn new() -> (registry: Self)
        ensures
            registry.wf(),
            registry@ == (RegistryState { live: Map::empty(), next_id: 1, next_generation: 1 }),
    {
        let registry = Self {
            records: [CapabilityRecord {
                handle: CapabilityHandle::invalid(),
                revoked: true,
            }; MAX_CAPABILITY_RECORDS],
            next_id: 1,
            next_generation: 1,
        };
        proof {
            lemma_live_map(registry.records@);
            assert(registry@.live =~= Map::empty());
        }
        registry
    }

    /// Index of the first record free for reuse, or the capacity when there is
    /// none.
    fn free_slot(&self) -> (slot: usize)
        requires
            self.wf(),
        ensures
            slot <= MAX_CAPABILITY_RECORDS,
            slot < MAX_CAPABILITY_RECORDS ==> self.records@[slot as int].revoked,
            slot < MAX_CAPABILITY_RECORDS <==> self@.live.dom().len() < MAX_CAPABILITY_RECORDS,
    {
        proof {
            lemma_live_map(self.records@);
        }
        let mut slot: usize = 0;
        while slot < MAX_CAPABILITY_RECORDS
            invariant
                slot <= MAX_CAPABILITY_RECORDS,
                ids_distinct(self.records@),
                forall|i: int| 0 <= i < slot ==> !(#[trigger] self.records@[i]).revoked,
            ensures
                slot <= MAX_CAPABILITY_RECORDS,
                slot < MAX_CAPABILITY_RECORDS ==> self.records@[slot as int].revoked,
                forall|i: int| 0 <= i < slot ==> !(#[trigger] self.records@[i]).revoked,
            decreases MAX_CAPABILITY_RECORDS - slot,
        {
            let record = self.records[slot];
            if record.handle.id == 0 || record.revoked {
                break ;
            }
            slot += 1;
        }
        slot
    }

    /// Index of the live record of a handle, or the capacity when it has none.
    fn live_slot(&self, handle: CapabilityHandle) -> (slot: usize)
        requires
            self.wf(),
        ensures
            slot <= MAX_CAPABILITY_RECORDS,
            slot < MAX_CAPABILITY_RECORDS <==> self@.is_live(handle),
            slot < MAX_CAPABILITY_RECORDS ==> {
                &&& !self.records@[slot as int].revoked
                &&& self.records@[slot as int].handle == self@.live[handle.id]
            },
    {
        proof {
            lemma_live_map(self.records@);
        }
        let mut slot: usize = 0;
        while slot < MAX_CAPABILITY_RECORDS
            invariant
                slot <= MAX_CAPABILITY_RECORDS,
                ids_distinct(self.records@),
                forall|i: int|
                    0 <= i < slot ==> {
                        let record = #[trigger] self.records@[i];
                        record.revoked || record.handle.id != handle.id
                            || record.handle.generation != handle.generation
                    },
            decreases MAX_CAPABILITY_RECORDS - slot,
        {
            let record = self.records[slot];
            if !record.revoked && record.handle.id == handle.id && record.handle.generation
                == handle.generation {
                assert(!self.records@[slot as int].revoked);
                return slot;
            }
            slot += 1;
        }
        proof {
            if self@.is_live(handle) {
                let i = slot_of(self.records@, handle.id);
                assert(!self.records@[i].revoked);
            }
        }
        slot
    }

    /// Issues a new root handle for a task.
    ///
    /// This is intended for bootstrapping and tests; production issuance should
    /// be mediated by the security subsystem and audited by the caller.
    pub fn issue(&mut self, owner_task: TaskId, rights: CapabilitySet) -> (result: KernelResult<
        CapabilityHandle,
    >)
        requires
            old(self).wf(),
        ensures
            final(self).wf(),
            final(self)@ == old(self)@.after(RegistryCall::Issue { owner_task, rights: rights@ }),
            match old(self)@.issue_error() {
                Some(error) => {
                    &&& result == Err::<CapabilityHandle, KernelError>(error)
                    &&& final(self)@ == old(self)@
                },
                None => {
                    &&& result == Ok::<CapabilityHandle, KernelError>(
                        old(self)@.issued_handle(owner_task, rights@),
                    )
                    &&& final(self)@ == old(self)@.issued(owner_task, rights@)
                },
            },
    {
        let slot: usize = self.free_slot();
        if slot == MAX_CAPABILITY_RECORDS {
            return Err(KernelError::CapacityExceeded);
        }
        let handle = CapabilityHandle {
            id: self.next_id,
            rights: rights.bits(),
            owner_task,
            generation: self.next_generation,
        };
        let next_id: u64 = match self.next_id.checked_add(1) {
            Some(next_id) => next_id,
            None => {
                return Err(KernelError::Internal);
            },
        };
        proof {
            lemma_live_map(self.records@);
            lemma_fill_record(self.records@, slot as int, handle);
        }
        self.next_id = next_id;
        self.next_generation = match self.next_generation.checked_add(1) {
            Some(next_generation) => next_generation,
            None => 1,
        };
        self.records[slot] = CapabilityRecord { handle, revoked: false };
        proof {
            lemma_live_map(self.records@);
        }
        Ok(handle)
    }

    /// Derives a child handle from an existing parent handle.
    ///
    /// Requested rights must be a subset of parent rights; otherwise the method
    /// fails closed with [`KernelError::MissingCapability`].
    pub fn derive(
        &mut self,
        parent: CapabilityHandle,
        owner_task: TaskId,
        requested: CapabilitySet,
    ) -> (result: KernelResult<CapabilityHandle>)
        requires
            old(self).wf(),
        ensures
            final(self).wf(),
            final(self)@ == old(self)@.after(
                RegistryCall::Derive { parent, owner_task, requested: requested@ },
            ),
            match old(self)@.derive_error(parent, requested@) {
                Some(error) => {
                    &&& result == Err::<CapabilityHandle, KernelError>(error)
                    &&& final(self)@ == old(self)@
                },
                None => {
                    &&& result == Ok::<CapabilityHandle, KernelError>(
                        old(self)@.issued_handle(owner_task, requested@),
                    )
                    &&& final(self)@ == old(self)@.issued(owner_task, requested@)
                },
            },
    {
        let parent_rights = match self.resolve(parent) {
            Ok(parent_rights) => parent_rights,
            Err(error) => {
                return Err(error);
            },
        };
        let child_rights = match parent_rights.derive(requested) {
            Ok(child_rights) => child_rights,
            Err(error) => {
                return Err(error);
            },
        };
        self.issue(owner_task, child_rights)
    }

    /// Revokes a handle.
    pub fn revoke(&mut self, handle: CapabilityHandle) -> (result: KernelResult<()>)
        requires
            old(self).wf(),
        ensures
            final(self).wf(),
            final(self)@ == old(self)@.after(RegistryCall::Revoke { handle }),
            old(self)@.is_live(handle) ==> {
                &&& result == Ok::<(), KernelError>(())
                &&& final(self)@ == old(self)@.revoked(handle)
            },
            !old(self)@.is_live(handle) ==> {
                &&& result == Err::<(), KernelError>(KernelError::NotFound)
                &&& final(self)@ == old(self)@
            },
    {
        let slot: usize = self.live_slot(handle);
        if slot == MAX_CAPABILITY_RECORDS {
            return Err(KernelError::NotFound);
        }
        proof {
            lemma_live_map(self.records@);
            lemma_revoke_record(self.records@, slot as int);
        }
        self.records[slot].revoked = true;
        proof {
            lemma_live_map(self.records@);
        }
        Ok(())
    }

    /// Resolves a live handle to its rights.
    pub fn resolve(&self, handle: CapabilityHandle) -> (result: KernelResult<CapabilitySet>)
        requires
            self.wf(),
        ensures
            match self@.resolved(handle) {
                Ok(rights) => result matches Ok(set) && set@ == rights,
                Err(error) => result == Err::<CapabilitySet, KernelError>(error),
            },
    {
        if handle.id == 0 {
            return Err(KernelError::NotFound);
        }
        let slot: usize = self.live_slot(handle);
        if slot == MAX_CAPABILITY_RECORDS {
            return Err(KernelError::NotFound);
        }
        CapabilitySet::from_bits(self.records[slot].handle.rights)
    }

    /// Returns `true` when the handle is live and contains `required`.
    pub fn handle_contains(&self, handle: CapabilityHandle, required: Capability) -> (result:
        KernelResult<bool>)
        requires
            self.wf(),
        ensures
            match self@.resolved(handle) {
                Ok(rights) => result == Ok::<bool, KernelError>(grants(rights, required)),
                Err(error) => result == Err::<bool, KernelError>(error),
            },
    {
        match self.resolve(handle) {
            Ok(rights) => Ok(rights.contains(required)),
            Err(error) => Err(error),
        }
    }
}

impl Default for CapabilityRegistry {
    fn default() -> (registry: Self)
        ensures
            registry.wf(),
            registry@ == (RegistryState { live: Map::empty(), next_id: 1, next_generation: 1 }),
    {
        Self::new()
    }
}

/// A call that changes a registry.
pub enum RegistryCall {
    Issue { owner_task: TaskId, rights: u64 },
    Derive { parent: CapabilityHandle, owner_task: TaskId, requested: u64 },
    Revoke { handle: CapabilityHandle },
}

impl RegistryState {
    /// The registry after one call, whether or not the call succeeded.
    pub open spec fn after(self, call: RegistryCall) -> RegistryState {
        match call {
            RegistryCall::Issue { owner_task, rights } => if self.issue_error() is None {
                self.issued(owner_task, rights)
            } else {
                self
            },
            RegistryCall::Derive { parent, owner_task, requested } => if self.derive_error(
                parent,
                requested,
            ) is None {
                self.issued(owner_task, requested)
            } else {
                self
            },
            RegistryCall::Revoke { handle } => if self.is_live(handle) {
                self.revoked(handle)
            } else {
                self
            },
        }
    }

    /// The registry after a sequence of calls.
    pub open spec fn after_all(self, calls: Seq<RegistryCall>) -> RegistryState
        decreases calls.len(),
    {
        if calls.len() == 0 {
            self
        } else {
            self.after_all(calls.drop_last()).after(calls.last())
        }
    }
}

proof fn lemma_registry_step(state: RegistryState, call: RegistryCall)
    requires
        state.valid(),
    ensures
        state.after(call).valid(),
        state.after(call).next_id >= state.next_id,
        forall|id: u64| #[trigger]
            state.after(call).live.contains_key(id) && id < state.next_id
                ==> state.live.contains_key(id) && state.after(call).live[id] == state.live[id],
{
}

/// Whatever calls are made, the registry stays valid, identifiers only grow,
/// and no identifier handed out before comes to life again or changes its
/// record.
pub proof fn law_identifiers_are_never_reused(state: RegistryState, calls: Seq<RegistryCall>)
    requires
        state.valid(),
    ensures
        state.after_all(calls).valid(),
        state.after_all(calls).next_id >= state.next_id,
        forall|id: u64| #[trigger]
            state.after_all(calls).live.contains_key(id) && id < state.next_id
                ==> state.live.contains_key(id) && state.after_all(calls).live[id]
                == state.live[id],
    decreases calls.len(),
{
    if calls.len() > 0 {
        let before = state.after_all(calls.drop_last());
        law_identifiers_are_never_reused(state, calls.drop_last());
        lemma_registry_step(before, calls.last());
        assert forall|id: u64| #[trigger]
            state.after_all(calls).live.contains_key(id) && id < state.next_id implies {
            &&& state.live.contains_key(id)
            &&& state.after_all(calls).live[id] == state.live[id]
        } by {
            assert(before.live.contains_key(id));
        }
    }
}

/// A revoked handle is dead for good: after the revocation and any further
/// calls it does not resolve.
pub proof fn law_revocation_is_permanent(
    state: RegistryState,
    handle: CapabilityHandle,
    calls: Seq<RegistryCall>,
)
    requires
        state.valid(),
        state.is_live(handle),
    ensures
        state.revoked(handle).after_all(calls).resolved(handle) == Err::<u64, KernelError>(
            KernelError::NotFound,
        ),
{
    let call = RegistryCall::Revoke { handle };
    lemma_registry_step(state, call);
    assert(state.after(call) == state.revoked(handle));
    law_identifiers_are_never_reused(state.revoked(handle), calls);
}

/// A freshly issued handle is new, resolves to the rights it was issued with,
/// and leaves every other live handle as it was.
pub proof fn law_issued_handle_resolves(state: RegistryState, owner_task: TaskId, rights: u64)
    requires
        state.valid(),
        state.issue_error() is None,
    ensures
        state.issued(owner_task, rights).valid(),
        !state.live.contains_key(state.next_id),
        state.issued(owner_task, rights).is_live(state.issued_handle(owner_task, rights)),
        only_known_bits(rights) ==> state.issued(owner_task, rights).resolved(
            state.issued_handle(owner_task, rights),
        ) == Ok::<u64, KernelError>(rights),
        forall|other: CapabilityHandle| #[trigger]
            state.is_live(other) ==> state.issued(owner_task, rights).resolved(other)
                == state.resolved(other),
{
    lemma_registry_step(state, RegistryCall::Issue { owner_task, rights });
}

/// A live handle keeps resolving as it did until it is itself revoked.
pub proof fn law_live_handles_stay_live(
    state: RegistryState,
    handle: CapabilityHandle,
    calls: Seq<RegistryCall>,
)
    requires
        state.valid(),
        state.is_live(handle),
        forall|i: int|
            0 <= i < calls.len() ==> !(#[trigger] calls[i] matches RegistryCall::Revoke {
                handle: revoked,
            } && revoked.id == handle.id),
    ensures
        state.after_all(calls).is_live(handle),
        state.after_all(calls).resolved(handle) == state.resolved(handle),
    decreases calls.len(),
{
    if calls.len() > 0 {
        let earlier = calls.drop_last();
        assert forall|i: int| 0 <= i < earlier.len() implies !(
        #[trigger] earlier[i] matches RegistryCall::Revoke { handle: revoked } && revoked.id
            == handle.id) by {
            assert(earlier[i] == calls[i]);
        }
        law_live_handles_stay_live(state, handle, earlier);
        law_identifiers_are_never_reused(state, earlier);
        assert(calls.last() == calls[calls.len() - 1]);
    }
}

/// Derivation attenuates: what a derived handle grants, its parent grants.
pub proof fn law_derivation_attenuates(
    state: RegistryState,
    parent: CapabilityHandle,
    owner_task: TaskId,
    requested: u64,
    capability: Capability,
)
    requires
        state.valid(),
        state.derive_error(parent, requested) is None,
        grants(state.issued_handle(owner_task, requested).rights, capability),
    ensures
        state.resolved(parent) matches Ok(rights) && covers(rights, requested) && grants(
            rights,
            capability,
        ),
{
    law_covering_is_attenuation(state.live[parent.id].rights, requested);
}

/// The zero handle is never live.
pub proof fn law_zero_handle_is_invalid(state: RegistryState, handle: CapabilityHandle)
    requires
        state.valid(),
        handle.id == 0,
    ensures
        state.resolved(handle) == Err::<u64, KernelError>(KernelError::NotFound),
{
}

/// Each capability has its bit: the masks are those of the ABI, a mask is known
/// exactly if it has none but the fifteen lowest bits, and it grants a
/// capability exactly if it has that capability's bit.
pub proof fn law_capability_bits_are_stable(bits: u64)
    ensures
        only_known_bits(bits) <==> bits < 0x8000,
        grants(bits, Capability::TaskSpawn) <==> bits % 2 == 1,
        grants(bits, Capability::TaskManage) <==> bits / 0x2 % 2 == 1,
        grants(bits, Capability::MemoryMap) <==> bits / 0x4 % 2 == 1,
        grants(bits, Capability::MemoryShare) <==> bits / 0x8 % 2 == 1,
        grants(bits, Capability::DeviceList) <==> bits / 0x10 % 2 == 1,
        grants(bits, Capability::DeviceOpen) <==> bits / 0x20 % 2 == 1,
        grants(bits, Capability::DeviceCall) <==> bits / 0x40 % 2 == 1,
        grants(bits, Capability::CognitionInfer) <==> bits / 0x80 % 2 == 1,
        grants(bits, Capability::CognitionMemory) <==> bits / 0x100 % 2 == 1,
        grants(bits, Capability::SecurityManage) <==> bits / 0x200 % 2 == 1,
        grants(bits, Capability::AuditAppend) <==> bits / 0x400 % 2 == 1,
        grants(bits, Capability::AuditQuery) <==> bits / 0x800 % 2 == 1,
        grants(bits, Capability::AuditVerify) <==> bits / 0x1000 % 2 == 1,
        grants(bits, Capability::DebugTrace) <==> bits / 0x2000 % 2 == 1,
        grants(bits, Capability::KernelMaintenance) <==> bits / 0x4000 % 2 == 1,
{
    assert({
        &&& bits & !0x7fffu64 == 0 <==> bits < 0x8000
        &&& bits & (1u64 << 0u64) != 0 <==> bits % 2 == 1
        &&& bits & (1u64 << 1u64) != 0 <==> bits / 0x2 % 2 == 1
        &&& bits & (1u64 << 2u64) != 0 <==> bits / 0x4 % 2 == 1
        &&& bits & (1u64 << 3u64) != 0 <==> bits / 0x8 % 2 == 1
        &&& bits & (1u64 << 4u64) != 0 <==> bits / 0x10 % 2 == 1
        &&& bits & (1u64 << 5u64) != 0 <==> bits / 0x20 % 2 == 1
        &&& bits & (1u64 << 6u64) != 0 <==> bits / 0x40 % 2 == 1
        &&& bits & (1u64 << 7u64) != 0 <==> bits / 0x80 % 2 == 1
        &&& bits & (1u64 << 8u64) != 0 <==> bits / 0x100 % 2 == 1
        &&& bits & (1u64 << 9u64) != 0 <==> bits / 0x200 % 2 == 1
        &&& bits & (1u64 << 10u64) != 0 <==> bits / 0x400 % 2 == 1
        &&& bits & (1u64 << 11u64) != 0 <==> bits / 0x800 % 2 == 1
        &&& bits & (1u64 << 12u64) != 0 <==> bits / 0x1000 % 2 == 1
        &&& bits & (1u64 << 13u64) != 0 <==> bits / 0x2000 % 2 == 1
        &&& bits & (1u64 << 14u64) != 0 <==> bits / 0x4000 % 2 == 1
    }) by (bit_vector);
}

/// Covering is bit by bit, unknown bits included: nothing is required that is
/// not held.
pub proof fn law_covering_leaves_nothing_out(held: u64, required: u64)
    ensures
        covers(held, required) <==> required & !held == 0,
        covers(held, 0),
        covers(held, held),
{
    assert({
        &&& held & required == required <==> required & !held == 0
        &&& held & 0u64 == 0
        &&& held & held == held
    }) by (bit_vector);
}

/// What a handle grants is on record: two handles with the same identifier and
/// generation resolve alike, whatever rights and owner they claim, and one with
/// the generation of another time does not resolve.
pub proof fn law_claims_on_a_handle_do_not_count(
    state: RegistryState,
    handle: CapabilityHandle,
    claimed: CapabilityHandle,
)
    requires
        state.valid(),
        state.is_live(handle),
        claimed.id == handle.id,
    ensures
        claimed.generation == handle.generation ==> state.resolved(claimed) == state.resolved(
            handle,
        ),
        claimed.generation != handle.generation ==> state.resolved(claimed) == Err::<
            u64,
            KernelError,
        >(KernelError::NotFound),
{
}

/// A handle can be issued as long as fewer than 64 are live and identifiers
/// are left. It carries what it was issued with, under the next identifier and
/// generation; the next one will differ from it in both.
pub proof fn law_handles_are_issued_while_there_is_room(
    state: RegistryState,
    owner_task: TaskId,
    rights: u64,
)
    requires
        state.valid(),
    ensures
        state.issue_error() is None <==> state.live.dom().len() < 64 && state.next_id < u64::MAX,
        state.live.dom().len() >= 64 ==> state.issue_error() == Some(
            KernelError::CapacityExceeded,
        ),
        state.live.dom().len() < 64 && state.next_id == u64::MAX ==> state.issue_error() == Some(
            KernelError::Internal,
        ),
        state.issued_handle(owner_task, rights) == (CapabilityHandle {
            id: state.next_id,
            rights,
            owner_task,
            generation: state.next_generation,
        }),
        state.issue_error() is None ==> {
            let after = state.issued(owner_task, rights);
            &&& after.next_id == state.next_id + 1
            &&& after.next_generation != state.next_generation
            &&& state.next_generation < u32::MAX ==> after.next_generation
                == state.next_generation + 1
            &&& state.next_generation == u32::MAX ==> after.next_generation == 1
            &&& after.live == state.live.insert(
                state.next_id,
                state.issued_handle(owner_task, rights),
            )
        },
{
}

/// Derivation succeeds exactly if the parent resolves, grants every bit
/// requested, and a handle can be issued; a dead parent is not found, and more
/// than the parent grants is missing authority.
pub proof fn law_attenuated_handles_can_be_derived(
    state: RegistryState,
    parent: CapabilityHandle,
    requested: u64,
)
    requires
        state.valid(),
        only_known_bits(requested),
    ensures
        !state.is_live(parent) ==> state.derive_error(parent, requested) == Some(
            KernelError::NotFound,
        ),
        state.resolved(parent) matches Ok(rights) ==> {
            let within = forall|c: Capability|
                grants(requested, c) ==> #[trigger] grants(rights, c);
            &&& !within ==> state.derive_error(parent, requested) == Some(
                KernelError::MissingCapability,
            )
            &&& within ==> state.derive_error(parent, requested) == state.issue_error()
        },
{
    if let Ok(rights) = state.resolved(parent) {
        law_covering_is_attenuation(rights, requested);
    }
}

/// What the three calls leave on record: an issued or derived handle stands
/// under the next identifier with its owner and the rights asked for, whoever
/// the parent belongs to, and a revoked one is gone.
pub proof fn law_records_hold_what_was_asked_for(
    state: RegistryState,
    handle: CapabilityHandle,
    owner_task: TaskId,
    rights: u64,
)
    requires
        state.valid(),
    ensures
        ({
            let asked = CapabilityHandle {
                id: state.next_id,
                rights,
                owner_task,
                generation: state.next_generation,
            };
            let issued = state.after(RegistryCall::Issue { owner_task, rights });
            let derived = state.after(
                RegistryCall::Derive { parent: handle, owner_task, requested: rights },
            );
            let revoked = state.after(RegistryCall::Revoke { handle });
            &&& state.issue_error() is None ==> issued.live == state.live.insert(
                state.next_id,
                asked,
            )
            &&& state.issue_error() is Some ==> issued == state
            &&& state.derive_error(handle, rights) is None ==> derived.live == state.live.insert(
                state.next_id,
                asked,
            )
            &&& state.derive_error(handle, rights) is Some ==> derived == state
            &&& state.is_live(handle) ==> revoked.live == state.live.remove(handle.id)
            &&& !state.is_live(handle) ==> revoked == state
        }),
{
}

/// A live handle resolves to the rights on record, if they are known ones, and
/// to a complaint about reserved bits if not; no other handle resolves.
pub proof fn law_live_handles_resolve(state: RegistryState, handle: CapabilityHandle)
    requires
        state.valid(),
    ensures
        state.is_live(handle) <==> state.live.contains_key(handle.id)
            && state.live[handle.id].generation == handle.generation,
        state.is_live(handle) && only_known_bits(state.live[handle.id].rights)
            ==> state.resolved(handle) == Ok::<u64, KernelError>(state.live[handle.id].rights),
        state.is_live(handle) && !only_known_bits(state.live[handle.id].rights)
            ==> state.resolved(handle) == Err::<u64, KernelError>(KernelError::ReservedBits),
        !state.is_live(handle) ==> state.resolved(handle) == Err::<u64, KernelError>(
            KernelError::NotFound,
        ),
{
}

/// Revoking a live handle makes room for one more, and no other handle notices.
pub proof fn law_revocation_frees_one_place(
    state: RegistryState,
    handle: CapabilityHandle,
    other: CapabilityHandle,
)
    requires
        state.valid(),
        state.is_live(handle),
        other.id != handle.id,
    ensures
        state.revoked(handle).live.dom().len() == state.live.dom().len() - 1,
        state.revoked(handle).resolved(other) == state.resolved(other),
        state.revoked(handle).next_id == state.next_id,
        state.revoked(handle).next_generation == state.next_generation,
{
}

/// The names of the capabilities.
pub proof fn law_capability_names_are_stable(capability: Capability)
    ensures
        capability == Capability::TaskSpawn ==> capability.spec_name() == "task.spawn",
        capability == Capability::TaskManage ==> capability.spec_name() == "task.manage",
        capability == Capability::MemoryMap ==> capability.spec_name() == "memory.map",
        capability == Capability::MemoryShare ==> capability.spec_name() == "memory.share",
        capability == Capability::DeviceList ==> capability.spec_name() == "device.list",
        capability == Capability::DeviceOpen ==> capability.spec_name() == "device.open",
        capability == Capability::DeviceCall ==> capability.spec_name() == "device.call",
        capability == Capability::CognitionInfer ==> capability.spec_name() == "cognition.infer",
        capability == Capability::CognitionMemory ==> capability.spec_name() == "cognition.memory",
        capability == Capability::SecurityManage ==> capability.spec_name() == "security.manage",
        capability == Capability::AuditAppend ==> capability.spec_name() == "audit.append",
        capability == Capability::AuditQuery ==> capability.spec_name() == "audit.query",
        capability == Capability::AuditVerify ==> capability.spec_name() == "audit.verify",
        capability == Capability::DebugTrace ==> capability.spec_name() == "debug.trace",
        capability == Capability::KernelMaintenance ==> capability.spec_name() == "kernel.maintenance",
{
}

} // verus!
