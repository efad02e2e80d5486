//! A minimal multi-device GPU execution model: per-device contexts,
//! asynchronous command streams, typed memory buffers in three address
//! spaces, and cross-stream synchronization events.
//!
//! The library keeps the whole machine state explicit in a [`Machine`]
//! value, so every operation's effect is stated in its contract and the
//! ordering discipline (FIFO per stream, cross-stream only through
//! events) is visible at the call site.

use vstd::prelude::*;

mod context;
pub mod error;
pub mod human;
pub mod laws;
pub mod machine;
pub mod model;
mod stream;
pub mod types;

pub use crate::error::GpuError;
pub use crate::human::bytes_to_human_readable;
pub use crate::machine::{cu_init, Machine};
pub use crate::types::{Buffer, Context, Event, Stream};

verus! {

/// The three address spaces a buffer can live in.
#[derive(Debug, Clone, Copy, PartialEq, Eq, Structural)]
pub enum AddressSpace {
    /// Accelerator-local memory, owned by one device.
    Device,
    /// Page-locked host memory, registered with the driver for fast transfer.
    PinnedHost,
    /// Ordinary host memory.
    PlainHost,
}

} // verus!
