use vstd::prelude::*;

verus! {

/// Every driver-facing operation returns a typed result; nothing is
/// silently swallowed. Most of these conditions are not transient, so
/// the library performs no implicit retries.
#[derive(Debug, Clone, Copy, PartialEq, Eq, Structural)]
pub enum GpuError {
    /// Global driver bring-up failed; no degraded mode exists.
    InitializationFailed,
    /// The requested device index is out of range.
    DeviceNotFound,
    /// The driver could not create an execution context.
    ContextCreationFailed,
    /// The requested address space has no room for the allocation.
    OutOfMemory,
    /// A zero-sized allocation was requested.
    InvalidSize,
    /// The two buffers of a copy have different sizes.
    SizeMismatch,
    /// Peer access was requested for a pair of devices that the
    /// machine does not connect, or a copy needed peer access that
    /// was never enabled.
    PeerAccessUnsupported,
    /// The driver reported a failure while enqueuing or draining.
    QueueOperationFailed,
}

impl GpuError {
    /// A short human-readable name for the error.
    pub fn describe(&self) -> (r: &'static str)
        ensures
            r@ == describe_spec(*self),
    {
        match self {
            GpuError::InitializationFailed => "initialization failed",
            GpuError::DeviceNotFound => "device not found",
            GpuError::ContextCreationFailed => "context creation failed",
            GpuError::OutOfMemory => "out of memory",
            GpuError::InvalidSize => "invalid size",
            GpuError::SizeMismatch => "size mismatch",
            GpuError::PeerAccessUnsupported => "peer access unsupported",
            GpuError::QueueOperationFailed => "queue operation failed",
        }
    }
}

/// The text `describe` returns for each error.
pub open spec fn describe_spec(e: GpuError) -> Seq<char> {
    match e {
        GpuError::InitializationFailed => "initialization failed"@,
        GpuError::DeviceNotFound => "device not found"@,
        GpuError::ContextCreationFailed => "context creation failed"@,
        GpuError::OutOfMemory => "out of memory"@,
        GpuError::InvalidSize => "invalid size"@,
        GpuError::SizeMismatch => "size mismatch"@,
        GpuError::PeerAccessUnsupported => "peer access unsupported"@,
        GpuError::QueueOperationFailed => "queue operation failed"@,
    }
}

} // verus!
