//! Device registry and mediation contracts.
//!
//! Drivers live behind this small boundary: a descriptor declares class,
//! lifecycle, supported operations, DMA behavior, and required capabilities.
//! Host-mode tests can register mock devices without register access or
//! platform-specific code.
use vstd::prelude::*;

use crate::capability::{Capability, CapabilitySet};
use crate::error::{KernelError, KernelResult};
use crate::slots::Slot;

verus! {

/// Maximum devices tracked by the host-mode registry.
pub const MAX_DEVICES: usize = 32;

/// Stable device identifier.
pub type DeviceId = u64;

/// Device classes from the device model.
#[derive(Clone, Copy, Debug, Eq, PartialEq, Structural)]
pub enum DeviceClass {
    /// Early or runtime console.
    Console,
    /// Timer source.
    Timer,
    /// Block storage.
    Block,
    /// Entropy source.
    Entropy,
    /// Simulated network endpoint.
    NetworkSim,
    /// Simulated sensor endpoint.
    SensorSim,
    /// Model or tensor accelerator.
    Accelerator,
    /// Cognitive memory device.
    Memory,
    /// Audit persistence device.
    AuditStorage,
}

/// Device lifecycle states.
#[derive(Clone, Copy, Debug, Eq, PartialEq, Structural)]
pub enum DeviceLifecycle {
    /// Discovered but not probed.
    Discovered,
    /// Probe is in progress.
    Probed,
    /// Registered for use.
    Registered,
    /// Configured and available.
    Configured,
    /// Opened by a caller.
    Open,
    /// Suspended.
    Suspended,
    /// Removed or unavailable.
    Removed,
}

/// DMA policy declared by a device.
#[derive(Clone, Copy, Debug, Eq, PartialEq, Structural)]
pub enum DmaPolicy {
    /// Device does not perform DMA.
    NoDma,
    /// Device may DMA only pinned, bounded user buffers.
    PinnedUser,
    /// Device may DMA only kernel-owned buffers.
    KernelOnly,
}

/// Device operation identifiers used by generic device calls.
///
/// The position of an operation in this declaration is its opcode.
#[derive(Clone, Copy, Debug, Eq, PartialEq, Structural)]
pub enum DeviceOperation {
    /// Query device metadata.
    Query,
    /// Read from device.
    Read,
    /// Write to device.
    Write,
    /// Submit an operation.
    Submit,
    /// Cancel an operation.
    Cancel,
    /// Reset the device.
    Reset,
    /// Query device health.
    Health,
}

impl DeviceOperation {
    /// The operation with an opcode, if there is one.
    pub open spec fn spec_from_raw(raw: u64) -> Option<DeviceOperation> {
        if raw == 0 {
            Some(DeviceOperation::Query)
        } else if raw == 1 {
            Some(DeviceOperation::Read)
        } else if raw == 2 {
            Some(DeviceOperation::Write)
        } else if raw == 3 {
            Some(DeviceOperation::Submit)
        } else if raw == 4 {
            Some(DeviceOperation::Cancel)
        } else if raw == 5 {
            Some(DeviceOperation::Reset)
        } else if raw == 6 {
            Some(DeviceOperation::Health)
        } else {
            None
        }
    }

    /// Converts a raw opcode to a known generic operation.
    pub fn from_raw(raw: u64) -> (operation: Option<Self>)
        ensures
            operation == Self::spec_from_raw(raw),
            match operation {
                Some(operation) => operation as u64 == raw,
                None => raw > 6,
            },
    {
        match raw {
            0 => Some(Self::Query),
            1 => Some(Self::Read),
            2 => Some(Self::Write),
            3 => Some(Self::Submit),
            4 => Some(Self::Cancel),
            5 => Some(Self::Reset),
            6 => Some(Self::Health),
            _ => None,
        }
    }
}

/// Static metadata for one device.
#[derive(Clone, Copy, Debug, Eq, PartialEq, Structural)]
pub struct DeviceDescriptor {
    /// Stable device identifier.
    pub id: DeviceId,
    /// Device class.
    pub class: DeviceClass,
    /// Current lifecycle state.
    pub lifecycle: DeviceLifecycle,
    /// Capabilities required to open or operate the device.
    pub required_capabilities: CapabilitySet,
    /// Supported operation bits indexed by [`DeviceOperation`] opcodes.
    pub supported_operations: u32,
    /// Maximum input buffer size in bytes.
    pub max_input_len: u32,
    /// Maximum output buffer size in bytes.
    pub max_output_len: u32,
    /// DMA behavior declaration.
    pub dma_policy: DmaPolicy,
}

impl DeviceDescriptor {
    /// Whether the bit of an operation is set.
    pub open spec fn spec_supports(self, operation: DeviceOperation) -> bool {
        self.supported_operations & (1u32 << (operation as u32)) != 0
    }

    /// Whether normal tasks may call the device.
    pub open spec fn available(self) -> bool {
        self.lifecycle == DeviceLifecycle::Registered || self.lifecycle
            == DeviceLifecycle::Configured || self.lifecycle == DeviceLifecycle::Open
    }

    /// Empty descriptor used for registry initialization.
    pub fn empty() -> (descriptor: Self)
        ensures
            descriptor == (DeviceDescriptor {
                id: 0,
                class: DeviceClass::Console,
                lifecycle: DeviceLifecycle::Removed,
                required_capabilities: CapabilitySet::spec_empty(),
                supported_operations: 0,
                max_input_len: 0,
                max_output_len: 0,
                dma_policy: DmaPolicy::NoDma,
            }),
    {
        Self {
            id: 0,
            class: DeviceClass::Console,
            lifecycle: DeviceLifecycle::Removed,
            required_capabilities: CapabilitySet::empty(),
            supported_operations: 0,
            max_input_len: 0,
            max_output_len: 0,
            dma_policy: DmaPolicy::NoDma,
        }
    }

    /// Returns `true` when this descriptor supports `operation`.
    pub fn supports(self, operation: DeviceOperation) -> (supported: bool)
        ensures
            supported == self.spec_supports(operation),
    {
        self.supported_operations & (1u32 << (operation as u32)) != 0
    }

    /// Returns `true` when the descriptor is callable by normal tasks.
    pub fn is_available(self) -> (available: bool)
        ensures
            available == self.available(),
    {
        matches!(
            self.lifecycle,
            DeviceLifecycle::Registered | DeviceLifecycle::Configured | DeviceLifecycle::Open
        )
    }
}

/// Whether the device at `i` is the one with an identifier.
pub open spec fn is_device(devices: Seq<DeviceDescriptor>, id: DeviceId, i: int) -> bool {
    0 <= i < devices.len() && devices[i].id == id
}

/// The device with an identifier, if there is one.
pub open spec fn find_device(devices: Seq<DeviceDescriptor>, id: DeviceId) -> Option<
    DeviceDescriptor,
> {
    if exists|i: int| is_device(devices, id, i) {
        Some(devices[choose|i: int| is_device(devices, id, i)])
    } else {
        None
    }
}

/// Registered devices have different, nonzero identifiers, and there is room
/// for them.
pub open spec fn devices_valid(devices: Seq<DeviceDescriptor>) -> bool {
    &&& devices.len() <= MAX_DEVICES
    &&& forall|i: int| 0 <= i < devices.len() ==> (#[trigger] devices[i]).id != 0
    &&& forall|i: int, j: int|
        0 <= i < j < devices.len() ==> (#[trigger] devices[i]).id != (#[trigger] devices[j]).id
}

/// Why a device cannot be registered beside others, if it cannot.
pub open spec fn register_error(
    devices: Seq<DeviceDescriptor>,
    descriptor: DeviceDescriptor,
) -> Option<KernelError> {
    if descriptor.id == 0 {
        Some(KernelError::InvalidArgument)
    } else if find_device(devices, descriptor.id) is Some {
        Some(KernelError::Duplicate)
    } else if devices.len() >= MAX_DEVICES {
        Some(KernelError::CapacityExceeded)
    } else {
        None
    }
}

/// What a caller with an authority mask gets when it opens a device.
pub open spec fn open_result(
    devices: Seq<DeviceDescriptor>,
    id: DeviceId,
    caller: CapabilitySet,
) -> KernelResult<DeviceDescriptor> {
    if !caller.has(Capability::DeviceOpen) {
        Err(KernelError::MissingCapability)
    } else {
        match find_device(devices, id) {
            None => Err(KernelError::NotFound),
            Some(descriptor) => if !descriptor.available() {
                Err(KernelError::Busy)
            } else if !caller.has_all(descriptor.required_capabilities) {
                Err(KernelError::MissingCapability)
            } else {
                Ok(descriptor)
            },
        }
    }
}

/// What a caller with an authority mask gets when it calls a device.
pub open spec fn call_result(
    devices: Seq<DeviceDescriptor>,
    id: DeviceId,
    operation: DeviceOperation,
    caller: CapabilitySet,
    input_len: u64,
    output_len: u64,
) -> KernelResult<DeviceDescriptor> {
    if !caller.has(Capability::DeviceCall) {
        Err(KernelError::MissingCapability)
    } else {
        match find_device(devices, id) {
            None => Err(KernelError::NotFound),
            Some(descriptor) => if !descriptor.available() {
                Err(KernelError::Busy)
            } else if !descriptor.spec_supports(operation) {
                Err(KernelError::InvalidArgument)
            } else if !caller.has_all(descriptor.required_capabilities) {
                Err(KernelError::MissingCapability)
            } else if input_len > descriptor.max_input_len || output_len
                > descriptor.max_output_len {
                Err(KernelError::BufferTooLarge)
            } else {
                Ok(descriptor)
            },
        }
    }
}

#[derive(Clone, Copy, Debug, Eq, PartialEq, Structural)]
struct DeviceSlot {
    occupied: bool,
    descriptor: DeviceDescriptor,
}

impl Slot for DeviceSlot {
    closed spec fn in_use(self) -> bool {
        self.occupied
    }
}

spec fn slot_devices(slots: Seq<DeviceSlot>) -> Seq<DeviceDescriptor> {
    Seq::new(crate::slots::filled_len(slots), |i: int| slots[i].descriptor)
}

proof fn lemma_slot_devices(slots: Seq<DeviceSlot>, n: nat)
    requires
        crate::slots::filled(slots, n),
    ensures
        crate::slots::filled_len(slots) == n,
        slot_devices(slots).len() == n,
        forall|i: int| 0 <= i < n ==> #[trigger] slot_devices(slots)[i] == slots[i].descriptor,
{
    crate::slots::lemma_filled_len(slots, n);
}

/// Bounded device registry with duplicate-ID and authorization checks.
///
/// The view is the registered devices in the order of their registration.
#[derive(Clone, Debug, Eq, PartialEq)]
pub struct DeviceRegistry {
    slots: [DeviceSlot; MAX_DEVICES],
}

impl View for DeviceRegistry {
    type V = Seq<DeviceDescriptor>;

    closed spec fn view(&self) -> Seq<DeviceDescriptor> {
        slot_devices(self.slots@)
    }
}

impl DeviceRegistry {
    /// Occupied slots come before free ones.
    pub closed spec fn repr_ok(&self) -> bool {
        crate::slots::filled(self.slots@, crate::slots::filled_len(self.slots@))
    }

    /// The registry is in a state its operations can produce.
    pub open spec fn wf(&self) -> bool {
        self.repr_ok() && devices_valid(self@)
    }

    /// Creates an empty registry.
    pub fn new() -> (registry: Self)
        ensures
            registry.wf(),
            registry@ == Seq::<DeviceDescriptor>::empty(),
    {
        let registry = Self {
            slots: [DeviceSlot {
                occupied: false,
                descriptor: DeviceDescriptor::empty(),
            }; MAX_DEVICES],
        };
        proof {
            lemma_slot_devices(registry.slots@, 0);
        }
        registry
    }

    /// Registers a device descriptor.
    pub fn register(&mut self, descriptor: DeviceDescriptor) -> (result: KernelResult<()>)
        requires
            old(self).wf(),
        ensures
            final(self).wf(),
            match register_error(old(self)@, descriptor) {
                Some(error) => {
                    &&& result == Err::<(), KernelError>(error)
                    &&& final(self)@ == old(self)@
                },
                None => {
                    &&& result == Ok::<(), KernelError>(())
                    &&& final(self)@ == old(self)@.push(descriptor)
                },
            },
    {
        if descriptor.id == 0 {
            return Err(KernelError::InvalidArgument);
        }
        if self.get(descriptor.id).is_some() {
            return Err(KernelError::Duplicate);
        }
        let ghost n = crate::slots::filled_len(self.slots@);
        proof {
            lemma_slot_devices(self.slots@, n);
        }
        let mut slot: usize = 0;
        while slot < MAX_DEVICES && self.slots[slot].occupied
            invariant
                slot <= MAX_DEVICES,
                crate::slots::filled(self.slots@, n),
                slot <= n,
            decreases MAX_DEVICES - slot,
        {
            slot += 1;
        }
        if slot == MAX_DEVICES {
            return Err(KernelError::CapacityExceeded);
        }
        self.slots[slot] = DeviceSlot { occupied: true, descriptor };
        proof {
            lemma_slot_devices(self.slots@, n + 1);
            assert(self@ =~= old(self)@.push(descriptor));
            assert forall|i: int| 0 <= i < n implies (#[trigger] old(self)@[i]).id
                != descriptor.id by {
                assert(!is_device(old(self)@, descriptor.id, i));
            }
        }
        Ok(())
    }

    /// Looks up a registered device.
    pub fn get(&self, id: DeviceId) -> (found: Option<DeviceDescriptor>)
        requires
            self.wf(),
        ensures
            found == find_device(self@, id),
    {
        let ghost n = crate::slots::filled_len(self.slots@);
        proof {
            lemma_slot_devices(self.slots@, n);
        }
        let mut slot: usize = 0;
        while slot < MAX_DEVICES
            invariant
                slot <= MAX_DEVICES,
                crate::slots::filled(self.slots@, n),
                n == self@.len(),
                devices_valid(self@),
                forall|i: int| 0 <= i < n ==> #[trigger] self@[i] == self.slots@[i].descriptor,
                forall|i: int| 0 <= i < slot && i < n ==> (#[trigger] self@[i]).id != id,
            decreases MAX_DEVICES - slot,
        {
            if self.slots[slot].occupied && self.slots[slot].descriptor.id == id {
                proof {
                    law_registered_device_is_found(self@, slot as int);
                }
                return Some(self.slots[slot].descriptor);
            }
            slot += 1;
        }
        None
    }

    /// Returns the number of registered devices.
    pub fn len(&self) -> (len: usize)
        requires
            self.wf(),
        ensures
            len == self@.len(),
    {
        let ghost n = crate::slots::filled_len(self.slots@);
        proof {
            lemma_slot_devices(self.slots@, n);
        }
        let mut len: usize = 0;
        let mut slot: usize = 0;
        while slot < MAX_DEVICES
            invariant
                slot <= MAX_DEVICES,
                crate::slots::filled(self.slots@, n),
                len == if slot < n {
                    slot as int
                } else {
                    n as int
                },
            decreases MAX_DEVICES - slot,
        {
            if self.slots[slot].occupied {
                len += 1;
            }
            slot += 1;
        }
        len
    }

    /// Returns `true` when the registry is empty.
    pub fn is_empty(&self) -> (empty: bool)
        requires
            self.wf(),
        ensures
            empty == (self@.len() == 0),
    {
        self.len() == 0
    }

    /// Validates that a caller may open a device.
    pub fn authorize_open(&self, id: DeviceId, caller: CapabilitySet) -> (result: KernelResult<
        DeviceDescriptor,
    >)
        requires
            self.wf(),
        ensures
            result == open_result(self@, id, caller),
    {
        match caller.require(Capability::DeviceOpen) {
            Ok(()) => {},
            Err(error) => {
                return Err(error);
            },
        }
        let descriptor = match self.get(id) {
            Some(descriptor) => descriptor,
            None => {
                return Err(KernelError::NotFound);
            },
        };
        if !descriptor.is_available() {
            return Err(KernelError::Busy);
        }
        if !caller.contains_all(descriptor.required_capabilities) {
            return Err(KernelError::MissingCapability);
        }
        Ok(descriptor)
    }

    /// Validates a generic device call before a driver sees user buffers.
    pub fn authorize_call(
        &self,
        id: DeviceId,
        operation: DeviceOperation,
        caller: CapabilitySet,
        input_len: u64,
        output_len: u64,
    ) -> (result: KernelResult<DeviceDescriptor>)
        requires
            self.wf(),
        ensures
            result == call_result(self@, id, operation, caller, input_len, output_len),
    {
        match caller.require(Capability::DeviceCall) {
            Ok(()) => {},
            Err(error) => {
                return Err(error);
            },
        }
        let descriptor = match self.get(id) {
            Some(descriptor) => descriptor,
            None => {
                return Err(KernelError::NotFound);
            },
        };
        if !descriptor.is_available() {
            return Err(KernelError::Busy);
        }
        if !descriptor.supports(operation) {
            return Err(KernelError::InvalidArgument);
        }
        if !caller.contains_all(descriptor.required_capabilities) {
            return Err(KernelError::MissingCapability);
        }
        if input_len > u64::from(descriptor.max_input_len) || output_len > u64::from(
            descriptor.max_output_len,
        ) {
            return Err(KernelError::BufferTooLarge);
        }
        Ok(descriptor)
    }
}

impl Default for DeviceRegistry {
    fn default() -> (registry: Self)
        ensures
            registry.wf(),
            registry@ == Seq::<DeviceDescriptor>::empty(),
    {
        Self::new()
    }
}

/// Opcodes and operations correspond one to one.
pub proof fn law_opcodes_round_trip(operation: DeviceOperation, raw: u64)
    ensures
        DeviceOperation::spec_from_raw(operation as u64) == Some(operation),
        DeviceOperation::spec_from_raw(raw) == Some(operation) ==> raw == operation as u64,
{
}

/// Every registered device is found under its identifier.
pub proof fn law_registered_device_is_found(devices: Seq<DeviceDescriptor>, i: int)
    requires
        devices_valid(devices),
        0 <= i < devices.len(),
    ensures
        find_device(devices, devices[i].id) == Some(devices[i]),
{
    let id = devices[i].id;
    assert(is_device(devices, id, i));
    let k = choose|k: int| is_device(devices, id, k);
    assert(is_device(devices, id, k));
    assert(k == i);
}

/// Registering a device makes it findable and changes no other lookup, and its
/// identifier cannot be registered a second time.
pub proof fn law_registration_adds_one_device(
    devices: Seq<DeviceDescriptor>,
    descriptor: DeviceDescriptor,
    other: DeviceId,
    again: DeviceDescriptor,
)
    requires
        devices_valid(devices),
        register_error(devices, descriptor) is None,
        other != descriptor.id,
        again.id == descriptor.id,
    ensures
        devices_valid(devices.push(descriptor)),
        find_device(devices.push(descriptor), descriptor.id) == Some(descriptor),
        find_device(devices.push(descriptor), other) == find_device(devices, other),
        register_error(devices.push(descriptor), again) == Some(KernelError::Duplicate),
{
    let after = devices.push(descriptor);
    assert forall|i: int| 0 <= i < devices.len() implies (#[trigger] devices[i]).id
        != descriptor.id by {
        assert(!is_device(devices, descriptor.id, i));
    }
    assert(devices_valid(after));
    assert(after[devices.len() as int] == descriptor);
    law_registered_device_is_found(after, devices.len() as int);
    if exists|i: int| is_device(devices, other, i) {
        let i = choose|i: int| is_device(devices, other, i);
        assert(after[i] == devices[i]);
        law_registered_device_is_found(after, i);
        law_registered_device_is_found(devices, i);
    } else {
        assert forall|i: int| !is_device(after, other, i) by {
            assert(!is_device(devices, other, i));
        }
    }
}

/// A call reaches a driver only if the caller holds the right to call devices
/// and every capability the device asks for, the device is available and
/// supports the operation, and both buffers are within its limits.
pub proof fn law_authorized_calls_are_authorized(
    devices: Seq<DeviceDescriptor>,
    id: DeviceId,
    operation: DeviceOperation,
    caller: CapabilitySet,
    input_len: u64,
    output_len: u64,
)
    ensures
        call_result(devices, id, operation, caller, input_len, output_len) matches Ok(
            descriptor,
        ) ==> {
            &&& find_device(devices, id) == Some(descriptor)
            &&& descriptor.id == id
            &&& caller.has(Capability::DeviceCall)
            &&& forall|c: Capability|
                descriptor.required_capabilities.has(c) ==> #[trigger] caller.has(c)
            &&& descriptor.available()
            &&& descriptor.spec_supports(operation)
            &&& input_len <= descriptor.max_input_len
            &&& output_len <= descriptor.max_output_len
        },
{
    if let Ok(descriptor) = call_result(devices, id, operation, caller, input_len, output_len) {
        crate::capability::law_covering_is_attenuation(
            caller@,
            descriptor.required_capabilities@,
        );
    }
}

/// A device is opened only for a caller that holds the right to open devices
/// and every capability the device asks for, and only while it is available.
pub proof fn law_opened_devices_are_authorized(
    devices: Seq<DeviceDescriptor>,
    id: DeviceId,
    caller: CapabilitySet,
)
    ensures
        open_result(devices, id, caller) matches Ok(descriptor) ==> {
            &&& find_device(devices, id) == Some(descriptor)
            &&& descriptor.id == id
            &&& caller.has(Capability::DeviceOpen)
            &&& forall|c: Capability|
                descriptor.required_capabilities.has(c) ==> #[trigger] caller.has(c)
            &&& descriptor.available()
        },
{
    if let Ok(descriptor) = open_result(devices, id, caller) {
        crate::capability::law_covering_is_attenuation(
            caller@,
            descriptor.required_capabilities@,
        );
    }
}

/// Opcodes are stable, and a device supports an operation exactly if its mask
/// has the bit at the opcode.
pub proof fn law_operations_are_mask_bits(descriptor: DeviceDescriptor)
    ensures
        ({
            let mask = descriptor.supported_operations;
            &&& descriptor.spec_supports(DeviceOperation::Query) <==> mask % 2 == 1
            &&& descriptor.spec_supports(DeviceOperation::Read) <==> mask / 2 % 2 == 1
            &&& descriptor.spec_supports(DeviceOperation::Write) <==> mask / 4 % 2 == 1
            &&& descriptor.spec_supports(DeviceOperation::Submit) <==> mask / 8 % 2 == 1
            &&& descriptor.spec_supports(DeviceOperation::Cancel) <==> mask / 16 % 2 == 1
            &&& descriptor.spec_supports(DeviceOperation::Reset) <==> mask / 32 % 2 == 1
            &&& descriptor.spec_supports(DeviceOperation::Health) <==> mask / 64 % 2 == 1
        }),
        DeviceOperation::spec_from_raw(0) == Some(DeviceOperation::Query),
        DeviceOperation::spec_from_raw(1) == Some(DeviceOperation::Read),
        DeviceOperation::spec_from_raw(2) == Some(DeviceOperation::Write),
        DeviceOperation::spec_from_raw(3) == Some(DeviceOperation::Submit),
        DeviceOperation::spec_from_raw(4) == Some(DeviceOperation::Cancel),
        DeviceOperation::spec_from_raw(5) == Some(DeviceOperation::Reset),
        DeviceOperation::spec_from_raw(6) == Some(DeviceOperation::Health),
        forall|raw: u64| raw > 6 ==> #[trigger] DeviceOperation::spec_from_raw(raw) is None,
{
    let mask = descriptor.supported_operations;
    assert({
        &&& mask & (1u32 << 0u32) != 0 <==> mask % 2 == 1
        &&& mask & (1u32 << 1u32) != 0 <==> mask / 2 % 2 == 1
        &&& mask & (1u32 << 2u32) != 0 <==> mask / 4 % 2 == 1
        &&& mask & (1u32 << 3u32) != 0 <==> mask / 8 % 2 == 1
        &&& mask & (1u32 << 4u32) != 0 <==> mask / 16 % 2 == 1
        &&& mask & (1u32 << 5u32) != 0 <==> mask / 32 % 2 == 1
        &&& mask & (1u32 << 6u32) != 0 <==> mask / 64 % 2 == 1
    }) by (bit_vector);
}

/// Whether every capability a device asks for is held, capability by
/// capability, for masks of known bits.
pub proof fn law_required_capabilities_are_held_one_by_one(
    caller: CapabilitySet,
    required: CapabilitySet,
)
    requires
        crate::capability::only_known_bits(required@),
    ensures
        caller.has_all(required) <==> forall|c: Capability|
            required.has(c) ==> #[trigger] caller.has(c),
{
    crate::capability::law_covering_is_attenuation(caller@, required@);
    if forall|c: Capability| required.has(c) ==> #[trigger] caller.has(c) {
        assert forall|c: Capability| crate::capability::grants(required@, c) implies
            #[trigger] crate::capability::grants(caller@, c) by {
            assert(required.has(c) ==> caller.has(c));
        }
    }
}

/// A device is available while it is registered, configured or open, and in no
/// other part of its life.
pub proof fn law_available_devices_are_in_service(descriptor: DeviceDescriptor)
    ensures
        descriptor.available() <==> match descriptor.lifecycle {
            DeviceLifecycle::Discovered => false,
            DeviceLifecycle::Probed => false,
            DeviceLifecycle::Registered => true,
            DeviceLifecycle::Configured => true,
            DeviceLifecycle::Open => true,
            DeviceLifecycle::Suspended => false,
            DeviceLifecycle::Removed => false,
        },
{
}

/// A device that is not there is not found, whoever has the right to ask.
pub proof fn law_missing_devices_are_not_found(
    devices: Seq<DeviceDescriptor>,
    id: DeviceId,
    operation: DeviceOperation,
    caller: CapabilitySet,
    input_len: u64,
    output_len: u64,
)
    requires
        forall|i: int| 0 <= i < devices.len() ==> (#[trigger] devices[i]).id != id,
    ensures
        find_device(devices, id) is None,
        caller.has(Capability::DeviceOpen) ==> open_result(devices, id, caller) == Err::<
            DeviceDescriptor,
            KernelError,
        >(KernelError::NotFound),
        caller.has(Capability::DeviceCall) ==> call_result(
            devices,
            id,
            operation,
            caller,
            input_len,
            output_len,
        ) == Err::<DeviceDescriptor, KernelError>(KernelError::NotFound),
{
}

/// Who may open a registered device: a caller with the right to open devices
/// and every capability the device asks for, while it is available. All others
/// are refused, for want of authority or because the device is not available.
pub proof fn law_authorized_callers_open_devices(
    devices: Seq<DeviceDescriptor>,
    i: int,
    caller: CapabilitySet,
)
    requires
        devices_valid(devices),
        0 <= i < devices.len(),
    ensures
        ({
            let device = devices[i];
            let result = open_result(devices, device.id, caller);
            let may_open = caller.has(Capability::DeviceOpen);
            let may_use = caller.has_all(device.required_capabilities);
            &&& may_open && device.available() && may_use ==> result == Ok::<
                DeviceDescriptor,
                KernelError,
            >(device)
            &&& !may_open ==> result == Err::<DeviceDescriptor, KernelError>(
                KernelError::MissingCapability,
            )
            &&& may_open && !device.available() ==> result == Err::<DeviceDescriptor, KernelError>(
                KernelError::Busy,
            )
            &&& may_open && device.available() && !may_use ==> result == Err::<
                DeviceDescriptor,
                KernelError,
            >(KernelError::MissingCapability)
        }),
{
    law_registered_device_is_found(devices, i);
}

/// Which calls to a registered device go through: those of a caller with the
/// right to call devices and every capability the device asks for, to an
/// available device that supports the operation, with buffers up to its limits.
/// The others are refused, with the first of these that is missing as reason.
pub proof fn law_authorized_calls_go_through(
    devices: Seq<DeviceDescriptor>,
    i: int,
    operation: DeviceOperation,
    caller: CapabilitySet,
    input_len: u64,
    output_len: u64,
)
    requires
        devices_valid(devices),
        0 <= i < devices.len(),
    ensures
        ({
            let device = devices[i];
            let result = call_result(devices, device.id, operation, caller, input_len, output_len);
            let may_call = caller.has(Capability::DeviceCall);
            let supported = device.spec_supports(operation);
            let may_use = caller.has_all(device.required_capabilities);
            let fits = input_len <= device.max_input_len && output_len <= device.max_output_len;
            &&& may_call && device.available() && supported && may_use && fits ==> result == Ok::<
                DeviceDescriptor,
                KernelError,
            >(device)
            &&& !may_call ==> result == Err::<DeviceDescriptor, KernelError>(
                KernelError::MissingCapability,
            )
            &&& may_call && !device.available() ==> result == Err::<DeviceDescriptor, KernelError>(
                KernelError::Busy,
            )
            &&& may_call && device.available() && !supported ==> result == Err::<
                DeviceDescriptor,
                KernelError,
            >(KernelError::InvalidArgument)
            &&& may_call && device.available() && supported && !may_use ==> result == Err::<
                DeviceDescriptor,
                KernelError,
            >(KernelError::MissingCapability)
            &&& may_call && device.available() && supported && may_use && !fits ==> result == Err::<
                DeviceDescriptor,
                KernelError,
            >(KernelError::BufferTooLarge)
        }),
{
    law_registered_device_is_found(devices, i);
}

/// A device is registered exactly if it has an identifier, no device has the
/// same, and fewer than 32 are registered.
pub proof fn law_registry_takes_new_devices(
    devices: Seq<DeviceDescriptor>,
    descriptor: DeviceDescriptor,
)
    ensures
        register_error(devices, descriptor) is None <==> {
            &&& descriptor.id != 0
            &&& forall|i: int|
                0 <= i < devices.len() ==> (#[trigger] devices[i]).id != descriptor.id
            &&& devices.len() < 32
        },
        descriptor.id == 0 ==> register_error(devices, descriptor) == Some(
            KernelError::InvalidArgument,
        ),
        descriptor.id != 0 && (exists|i: int|
            0 <= i < devices.len() && (#[trigger] devices[i]).id == descriptor.id)
            ==> register_error(devices, descriptor) == Some(KernelError::Duplicate),
{
    if exists|i: int| 0 <= i < devices.len() && (#[trigger] devices[i]).id == descriptor.id {
        let i = choose|i: int| 0 <= i < devices.len() && (#[trigger] devices[i]).id
            == descriptor.id;
        assert(is_device(devices, descriptor.id, i));
    }
    if exists|i: int| is_device(devices, descriptor.id, i) {
        let i = choose|i: int| is_device(devices, descriptor.id, i);
        assert(devices[i].id == descriptor.id);
    }
}

} // verus!
