//! The handle types callers hold: plain values that name state inside
//! a [`crate::machine::Machine`]. They may be freely copied; validity
//! against a machine is the spec predicates of [`crate::model`].

use vstd::prelude::*;

verus! {

/// A per-device execution context. All operations on a device first
/// make that device's context current on the calling thread.
#[derive(Debug, Clone, Copy, PartialEq, Eq, Structural)]
pub struct Context {
    /// The index of the device this context is bound to.
    pub device_id: i32,
    /// The machine's handle for this context.
    pub id: usize,
}

/// An ordered, asynchronous command queue bound to a context.
/// Operations issued on the same stream execute in issue order;
/// operations on different streams are unordered unless linked by an
/// [`Event`].
#[derive(Debug, Clone, Copy, PartialEq, Eq, Structural)]
pub struct Stream {
    /// The context this stream is bound to.
    pub ctx: Context,
    /// The machine's handle for this stream.
    pub id: usize,
}

/// A cross-stream ordering signal: recorded on one stream, waited on
/// by another.
#[derive(Debug, Clone, Copy, PartialEq, Eq, Structural)]
pub struct Event {
    /// The context this event is bound to.
    pub ctx: Context,
    /// The machine's handle for this event.
    pub id: usize,
}

/// A sized memory allocation tagged with its address space. The size
/// is fixed at creation; the handle names its allocation for the whole
/// life of the machine, and exactly one free must occur per creation.
#[derive(Debug, Clone, Copy, PartialEq, Eq, Structural)]
pub struct Buffer {
    /// The context whose stream created the allocation; meaningful for
    /// `Device` and `PinnedHost` memory.
    pub ctx: Context,
    /// The allocation's size in bytes; never changes.
    pub size: usize,
    /// Which address space the allocation lives in.
    pub address_space: crate::AddressSpace,
    /// The machine's handle for the allocation.
    pub id: usize,
}

} // verus!
