//! Presentation: the headless surface, its capabilities and the swapchain.
use vstd::prelude::*;

use crate::adapter::PhysicalDevice;
use crate::device::Device;
use crate::queue::{QueueFamily, Suboptimal};
use crate::support::{Handle, Unsupported};

verus! {

/// A two-dimensional extent in pixels.
#[derive(Clone, Copy, Debug, PartialEq, Eq, Structural)]
pub struct Extent2D {
    pub width: u32,
    pub height: u32,
}

/// Bit of [`SurfaceCapabilities::usage`]: the image can be a color attachment.
pub const USAGE_COLOR_ATTACHMENT: u32 = 0x10;

/// Present mode bits: immediate, mailbox, fifo and relaxed.
pub const PRESENT_MODE_IMMEDIATE: u32 = 0x1;
pub const PRESENT_MODE_MAILBOX: u32 = 0x2;
pub const PRESENT_MODE_FIFO: u32 = 0x4;
pub const PRESENT_MODE_RELAXED: u32 = 0x8;

/// Composite alpha bit: the alpha channel is ignored when compositing.
pub const COMPOSITE_ALPHA_OPAQUE: u32 = 0x1;

/// The largest extent a swapchain of this surface may have.
pub const MAX_EXTENT_WIDTH: u32 = 8192;
pub const MAX_EXTENT_HEIGHT: u32 = 4096;

/// What a surface allows a swapchain to be.
#[derive(Clone, Copy, Debug, PartialEq, Eq, Structural)]
pub struct SurfaceCapabilities {
    /// Fewest and most presentable images, both inclusive.
    pub min_image_count: u32,
    pub max_image_count: u32,
    /// The surface's own extent, where it has one.
    pub current_extent: Option<Extent2D>,
    /// Smallest and largest swapchain extent, both inclusive.
    pub min_extent: Extent2D,
    pub max_extent: Extent2D,
    pub max_image_layers: u16,
    /// Image usage bits.
    pub usage: u32,
    /// Present mode bits.
    pub present_modes: u32,
    /// Composite alpha bits.
    pub composite_alpha_modes: u32,
}

/// The capabilities that every surface of this backend reports.
pub open spec fn headless_capabilities() -> SurfaceCapabilities {
    SurfaceCapabilities {
        min_image_count: 1,
        max_image_count: 1,
        current_extent: None,
        min_extent: Extent2D { width: 0, height: 0 },
        max_extent: Extent2D { width: MAX_EXTENT_WIDTH, height: MAX_EXTENT_HEIGHT },
        max_image_layers: 1,
        usage: USAGE_COLOR_ATTACHMENT,
        present_modes: 0xF,
        composite_alpha_modes: COMPOSITE_ALPHA_OPAQUE,
    }
}

/// How a caller wants the swapchain of a surface to be set up.
#[derive(Clone, Copy, Debug, PartialEq, Eq, Structural)]
pub struct SwapchainConfig {
    pub present_mode: u32,
    pub extent: Extent2D,
    pub image_count: u32,
    pub image_layers: u16,
    pub image_usage: u32,
}

/// Failures of presentation; this backend produces none.
#[derive(Clone, Copy, Debug, PartialEq, Eq, Structural)]
pub enum PresentError {
    OutOfHostMemory,
    OutOfDeviceMemory,
    DeviceLost,
    SurfaceLost,
    OutOfDate,
}

/// Failures of image acquisition; this backend produces none.
#[derive(Clone, Copy, Debug, PartialEq, Eq, Structural)]
pub enum AcquireError {
    OutOfHostMemory,
    OutOfDeviceMemory,
    NotReady,
    Timeout,
    DeviceLost,
    SurfaceLost,
    OutOfDate,
}

/// Failures of swapchain configuration; this backend produces none.
#[derive(Clone, Copy, Debug, PartialEq, Eq, Structural)]
pub enum SwapchainError {
    OutOfHostMemory,
    OutOfDeviceMemory,
    DeviceLost,
    SurfaceLost,
    WindowInUse,
}

/// A presentable target that needs no window system.
#[derive(Clone, Copy, Debug, PartialEq, Eq, Structural)]
pub struct Surface;

impl Surface {
    /// Every queue family can present to the surface.
    pub fn supports_queue_family(&self, family: &QueueFamily) -> (r: bool)
        ensures
            r,
    {
        true
    }

    /// One image, one layer, extents from 0 x 0 to 8192 x 4096, color
    /// attachment usage, every present mode and opaque compositing.
    pub fn capabilities(&self, physical_device: &PhysicalDevice) -> (r: SurfaceCapabilities)
        ensures
            r == headless_capabilities(),
    {
        let min_extent = Extent2D { width: 0, height: 0 };
        let max_extent = Extent2D { width: MAX_EXTENT_WIDTH, height: MAX_EXTENT_HEIGHT };
        let present_modes = PRESENT_MODE_IMMEDIATE | PRESENT_MODE_MAILBOX | PRESENT_MODE_FIFO
            | PRESENT_MODE_RELAXED;
        assert(0x1u32 | 0x2u32 | 0x4u32 | 0x8u32 == 0xFu32) by (bit_vector);
        SurfaceCapabilities {
            min_image_count: 1,
            max_image_count: 1,
            current_extent: None,
            min_extent,
            max_extent,
            max_image_layers: 1,
            usage: USAGE_COLOR_ATTACHMENT,
            present_modes,
            composite_alpha_modes: COMPOSITE_ALPHA_OPAQUE,
        }
    }

    /// The surface places no constraint on the image format.
    pub fn supported_formats(&self, physical_device: &PhysicalDevice) -> (r: Option<Vec<u32>>)
        ensures
            r is None,
    {
        None
    }

    /// Setting up the swapchain always succeeds and changes nothing.
    pub fn configure_swapchain(&mut self, device: &Device, config: SwapchainConfig) -> (r: Result<
        (),
        SwapchainError,
    >)
        ensures
            r == Ok::<(), SwapchainError>(()),
            *final(self) == *old(self),
    {
        Ok(())
    }

    /// Tearing the swapchain down changes nothing.
    pub fn unconfigure_swapchain(&mut self, device: &Device)
        ensures
            *final(self) == *old(self),
    {
    }

    /// Hands out the sentinel image at once, whatever the timeout, with
    /// nothing suboptimal to report.
    pub fn acquire_image(&mut self, timeout_ns: u64) -> (r: Result<
        (Handle, Option<Suboptimal>),
        AcquireError,
    >)
        ensures
            r == Ok::<(Handle, Option<Suboptimal>), AcquireError>((Handle, None)),
            *final(self) == *old(self),
    {
        Ok((Handle, None))
    }
}

/// A classic swapchain; only the surface's own acquisition is implemented.
#[derive(Clone, Copy, Debug, PartialEq, Eq, Structural)]
pub struct Swapchain;

impl Swapchain {
    /// Acquisition through a classic swapchain needs a native backend.
    pub fn acquire_image(
        &mut self,
        timeout_ns: u64,
        semaphore: Option<&Handle>,
        fence: Option<&Handle>,
    ) -> (r: Result<(u32, Option<Suboptimal>), Unsupported>)
        ensures
            r == Err::<(u32, Option<Suboptimal>), Unsupported>(Unsupported),
    {
        Err(Unsupported)
    }
}

} // verus!
