//! A backend of the hardware abstraction layer that performs no GPU work.
//!
//! Every resource collapses to a sentinel handle, every supported call
//! succeeds at once, and every call that would need a real GPU reports
//! [`Unsupported`] so that the caller can stop with [`UNSUPPORTED_MESSAGE`].
use vstd::prelude::*;

pub mod adapter;
pub mod command;
pub mod device;
pub mod instance;
pub mod queue;
pub mod support;
pub mod window;

pub use adapter::PhysicalDevice;
pub use device::Device;
pub use instance::Instance;
pub use queue::{CommandQueue, QueueFamily};
pub use support::{Handle, Unsupported, UNSUPPORTED_MESSAGE};
pub use window::{Surface, Swapchain};

verus! {

/// The backend as a whole: a marker that names the set of types above and
/// carries nothing.
#[derive(Clone, Copy, Debug, PartialEq, Eq, Hash, Structural)]
pub struct Backend;

} // verus!
