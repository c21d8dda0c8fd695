//! Kernel status and typed error mapping.
//!
//! The kernel keeps a richer internal error enum while exposing the stable
//! status values of the kernel/user ABI.
use vstd::prelude::*;

verus! {

/// Stable status values returned across the kernel ABI boundary.
///
/// [`KernelStatus::code`] gives the `u32` each status travels as.
#[derive(Clone, Copy, Debug, Eq, PartialEq, Structural)]
pub enum KernelStatus {
    /// Operation completed successfully.
    Success,
    /// The caller provided malformed or out-of-range input.
    InvalidArgument,
    /// The caller lacks authority for the requested operation.
    PermissionDenied,
    /// The requested object does not exist.
    NotFound,
    /// The subsystem is temporarily unable to make progress.
    Busy,
    /// A declared deadline or budget was exceeded.
    DeadlineExceeded,
    /// A kernel invariant failed or an internal subsystem fault occurred.
    Internal,
}

impl KernelStatus {
    /// The ABI value of a status.
    pub open spec fn spec_code(self) -> u32 {
        match self {
            KernelStatus::Success => 0,
            KernelStatus::InvalidArgument => 1,
            KernelStatus::PermissionDenied => 2,
            KernelStatus::NotFound => 3,
            KernelStatus::Busy => 4,
            KernelStatus::DeadlineExceeded => 5,
            KernelStatus::Internal => 0xffff_ffff,
        }
    }

    /// Returns the stable `u32` value of this status in syscall results.
    pub fn code(self) -> (code: u32)
        ensures
            code == self.spec_code(),
    {
        match self {
            Self::Success => 0,
            Self::InvalidArgument => 1,
            Self::PermissionDenied => 2,
            Self::NotFound => 3,
            Self::Busy => 4,
            Self::DeadlineExceeded => 5,
            Self::Internal => 0xffff_ffff,
        }
    }

    /// Returns `true` when the status represents success.
    pub fn is_ok(self) -> (ok: bool)
        ensures
            ok == (self == KernelStatus::Success),
    {
        matches!(self, Self::Success)
    }
}

/// Internal kernel error taxonomy.
///
/// Public APIs return this enum inside Rust so tests and host-mode callers can
/// distinguish validation, authority, capacity, and invariant failures without
/// relying on ad hoc strings. Convert to [`KernelStatus`] at syscall boundaries.
#[derive(Clone, Copy, Debug, Eq, PartialEq, Structural)]
pub enum KernelError {
    /// A syscall number or operation code is not known to the current table.
    UnknownSyscall,
    /// A general argument validation check failed.
    InvalidArgument,
    /// User memory pointer, length, direction, or alignment validation failed.
    InvalidUserBuffer,
    /// A buffer length exceeded the configured kernel copy/pin limit.
    BufferTooLarge,
    /// A pointer range crossed outside the current user address range.
    BufferOutOfRange,
    /// Reserved bits were set in an ABI flags field.
    ReservedBits,
    /// The caller did not hold the required capability.
    MissingCapability,
    /// Access was denied by policy.
    PermissionDenied,
    /// The requested object was not found.
    NotFound,
    /// A bounded registry or table has no free slots.
    CapacityExceeded,
    /// A subsystem is temporarily busy.
    Busy,
    /// A declared deadline or budget was exceeded.
    DeadlineExceeded,
    /// A state transition was invalid for the target object.
    InvalidState,
    /// A range overlapped a protected or already-registered range.
    Overlap,
    /// A sealed object was modified.
    Sealed,
    /// A duplicate identifier was supplied to a registry.
    Duplicate,
    /// An internal invariant failed.
    Internal,
}

impl KernelError {
    /// The status an error is reported as: authority errors are denials,
    /// shortage of room or of time keeps its own status, and every complaint
    /// about what the caller passed is an invalid argument.
    pub open spec fn spec_status(self) -> KernelStatus {
        match self {
            KernelError::MissingCapability => KernelStatus::PermissionDenied,
            KernelError::PermissionDenied => KernelStatus::PermissionDenied,
            KernelError::NotFound => KernelStatus::NotFound,
            KernelError::CapacityExceeded => KernelStatus::Busy,
            KernelError::Busy => KernelStatus::Busy,
            KernelError::DeadlineExceeded => KernelStatus::DeadlineExceeded,
            KernelError::Internal => KernelStatus::Internal,
            _ => KernelStatus::InvalidArgument,
        }
    }

    /// The label of each error.
    pub open spec fn spec_reason(self) -> &'static str {
        match self {
            KernelError::UnknownSyscall => "unknown_syscall",
            KernelError::InvalidArgument => "invalid_argument",
            KernelError::InvalidUserBuffer => "invalid_user_buffer",
            KernelError::BufferTooLarge => "buffer_too_large",
            KernelError::BufferOutOfRange => "buffer_out_of_range",
            KernelError::ReservedBits => "reserved_bits",
            KernelError::MissingCapability => "missing_capability",
            KernelError::PermissionDenied => "permission_denied",
            KernelError::NotFound => "not_found",
            KernelError::CapacityExceeded => "capacity_exceeded",
            KernelError::Busy => "busy",
            KernelError::DeadlineExceeded => "deadline_exceeded",
            KernelError::InvalidState => "invalid_state",
            KernelError::Overlap => "overlap",
            KernelError::Sealed => "sealed",
            KernelError::Duplicate => "duplicate",
            KernelError::Internal => "internal",
        }
    }

    /// Maps the internal error to the stable syscall status code.
    pub fn status(self) -> (status: KernelStatus)
        ensures
            status == self.spec_status(),
    {
        match self {
            Self::UnknownSyscall
            | Self::InvalidArgument
            | Self::InvalidUserBuffer
            | Self::BufferTooLarge
            | Self::BufferOutOfRange
            | Self::ReservedBits
            | Self::InvalidState
            | Self::Overlap
            | Self::Sealed
            | Self::Duplicate => KernelStatus::InvalidArgument,
            Self::MissingCapability | Self::PermissionDenied => KernelStatus::PermissionDenied,
            Self::NotFound => KernelStatus::NotFound,
            Self::CapacityExceeded | Self::Busy => KernelStatus::Busy,
            Self::DeadlineExceeded => KernelStatus::DeadlineExceeded,
            Self::Internal => KernelStatus::Internal,
        }
    }

    /// Short stable reason label for audit and diagnostic events.
    pub fn reason(self) -> (label: &'static str)
        ensures
            label == self.spec_reason(),
    {
        match self {
            Self::UnknownSyscall => "unknown_syscall",
            Self::InvalidArgument => "invalid_argument",
            Self::InvalidUserBuffer => "invalid_user_buffer",
            Self::BufferTooLarge => "buffer_too_large",
            Self::BufferOutOfRange => "buffer_out_of_range",
            Self::ReservedBits => "reserved_bits",
            Self::MissingCapability => "missing_capability",
            Self::PermissionDenied => "permission_denied",
            Self::NotFound => "not_found",
            Self::CapacityExceeded => "capacity_exceeded",
            Self::Busy => "busy",
            Self::DeadlineExceeded => "deadline_exceeded",
            Self::InvalidState => "invalid_state",
            Self::Overlap => "overlap",
            Self::Sealed => "sealed",
            Self::Duplicate => "duplicate",
            Self::Internal => "internal",
        }
    }
}

impl From<KernelError> for KernelStatus {
    fn from(error: KernelError) -> (status: Self) {
        error.status()
    }
}

impl vstd::std_specs::convert::FromSpecImpl<KernelError> for KernelStatus {
    open spec fn obeys_from_spec() -> bool {
        true
    }

    open spec fn from_spec(error: KernelError) -> Self {
        error.spec_status()
    }
}

/// Result alias used by kernel subsystem APIs.
pub type KernelResult<T> = Result<T, KernelError>;

/// No error is ever reported to a caller as success.
pub proof fn law_errors_never_report_success(error: KernelError)
    ensures
        error.spec_status() != KernelStatus::Success,
        error.spec_status().spec_code() != 0,
{
}

/// An error is reported as a denial exactly when it is about authority.
pub proof fn law_denials_are_authority_errors(error: KernelError)
    ensures
        error.spec_status() == KernelStatus::PermissionDenied <==> (error
            == KernelError::MissingCapability || error == KernelError::PermissionDenied),
{
}

/// Two statuses with the same ABI value are the same status.
pub proof fn law_status_codes_are_distinct(a: KernelStatus, b: KernelStatus)
    requires
        a.spec_code() == b.spec_code(),
    ensures
        a == b,
{
}

/// What callers see of each error: lack of authority is a denial, lack of room
/// or of readiness is busy, a missing object, a passed deadline and a broken
/// invariant have statuses of their own, and all else is an invalid argument.
pub proof fn law_errors_are_reported_by_cause(error: KernelError)
    ensures
        error.spec_status() == KernelStatus::PermissionDenied <==> error
            == KernelError::MissingCapability || error == KernelError::PermissionDenied,
        error.spec_status() == KernelStatus::Busy <==> error == KernelError::Busy || error
            == KernelError::CapacityExceeded,
        error.spec_status() == KernelStatus::NotFound <==> error == KernelError::NotFound,
        error.spec_status() == KernelStatus::DeadlineExceeded <==> error
            == KernelError::DeadlineExceeded,
        error.spec_status() == KernelStatus::Internal <==> error == KernelError::Internal,
        error.spec_status() == KernelStatus::InvalidArgument <==> error
            == KernelError::UnknownSyscall || error == KernelError::InvalidArgument || error
            == KernelError::InvalidUserBuffer || error == KernelError::BufferTooLarge || error
            == KernelError::BufferOutOfRange || error == KernelError::ReservedBits || error
            == KernelError::InvalidState || error == KernelError::Overlap || error
            == KernelError::Sealed || error == KernelError::Duplicate,
{
}

/// The ABI values of the statuses: zero is success, failures count from one,
/// and an internal failure is the highest value there is.
pub proof fn law_status_codes_are_stable(status: KernelStatus)
    ensures
        status.spec_code() == 0 <==> status == KernelStatus::Success,
        status.spec_code() == 1 <==> status == KernelStatus::InvalidArgument,
        status.spec_code() == 2 <==> status == KernelStatus::PermissionDenied,
        status.spec_code() == 3 <==> status == KernelStatus::NotFound,
        status.spec_code() == 4 <==> status == KernelStatus::Busy,
        status.spec_code() == 5 <==> status == KernelStatus::DeadlineExceeded,
        status.spec_code() == u32::MAX <==> status == KernelStatus::Internal,
{
}

/// The labels of the errors.
pub proof fn law_error_labels_are_stable(error: KernelError)
    ensures
        error == KernelError::UnknownSyscall ==> error.spec_reason() == "unknown_syscall",
        error == KernelError::InvalidArgument ==> error.spec_reason() == "invalid_argument",
        error == KernelError::InvalidUserBuffer ==> error.spec_reason() == "invalid_user_buffer",
        error == KernelError::BufferTooLarge ==> error.spec_reason() == "buffer_too_large",
        error == KernelError::BufferOutOfRange ==> error.spec_reason() == "buffer_out_of_range",
        error == KernelError::ReservedBits ==> error.spec_reason() == "reserved_bits",
        error == KernelError::MissingCapability ==> error.spec_reason() == "missing_capability",
        error == KernelError::PermissionDenied ==> error.spec_reason() == "permission_denied",
        error == KernelError::NotFound ==> error.spec_reason() == "not_found",
        error == KernelError::CapacityExceeded ==> error.spec_reason() == "capacity_exceeded",
        error == KernelError::Busy ==> error.spec_reason() == "busy",
        error == KernelError::DeadlineExceeded ==> error.spec_reason() == "deadline_exceeded",
        error == KernelError::InvalidState ==> error.spec_reason() == "invalid_state",
        error == KernelError::Overlap ==> error.spec_reason() == "overlap",
        error == KernelError::Sealed ==> error.spec_reason() == "sealed",
        error == KernelError::Duplicate ==> error.spec_reason() == "duplicate",
        error == KernelError::Internal ==> error.spec_reason() == "internal",
{
}

} // verus!
