//! The logical device: resource creation and destruction, memory, fences.
use vstd::prelude::*;

use crate::command::{CommandBuffer, CommandPool, DescriptorPool};
use crate::queue::QueueFamilyId;
use crate::support::{Handle, Unsupported};
use crate::window::{Surface, Swapchain, SwapchainConfig};

verus! {

/// Size in bytes of the one scratch region that every memory mapping returns.
pub const SCRATCH_SIZE: usize = 655360;

/// A three-dimensional extent in texels.
#[derive(Clone, Copy, Debug, PartialEq, Eq, Structural)]
pub struct Extent3D {
    pub width: u32,
    pub height: u32,
    pub depth: u32,
}

/// The memory a resource needs.
#[derive(Clone, Copy, Debug, PartialEq, Eq, Structural)]
pub struct Requirements {
    pub size: u64,
    pub alignment: u64,
    /// Bit `i` set: memory type `i` can back the resource.
    pub type_mask: u64,
}

/// What every resource of this backend reports it needs: one byte, aligned
/// to one, of any memory type.
pub open spec fn placeholder_requirements() -> Requirements {
    Requirements { size: 1, alignment: 1, type_mask: u64::MAX }
}

/// A part of a memory object: its offset, and its size or the rest of it.
#[derive(Clone, Copy, Debug, PartialEq, Eq, Structural)]
pub struct Segment {
    pub offset: u64,
    pub size: Option<u64>,
}

/// Where a mapping lies in the shared scratch region, and how far it reaches.
#[derive(Clone, Copy, Debug, PartialEq, Eq, Structural)]
pub struct MappedRegion {
    pub offset: usize,
    pub len: usize,
}

/// The region that mapping `segment` of `memory` yields: the whole scratch
/// region, from its start, for every memory object and every segment.
pub open spec fn mapping_of(memory: Handle, segment: Segment) -> MappedRegion {
    MappedRegion { offset: 0, len: SCRATCH_SIZE }
}

/// Mappings alias: mapping any two memory objects, at any segments, yields
/// the same region of the one scratch buffer.
pub proof fn lemma_mappings_alias(first: Handle, first_segment: Segment, second: Handle, second_segment: Segment)
    ensures
        mapping_of(first, first_segment) == mapping_of(second, second_segment),
        mapping_of(first, first_segment).offset == 0,
        mapping_of(first, first_segment).len == SCRATCH_SIZE,
{
}

/// How a subresource of an image is laid out in memory.
#[derive(Clone, Copy, Debug, PartialEq, Eq, Structural)]
pub struct SubresourceFootprint {
    pub offset_start: u64,
    pub offset_end: u64,
    pub row_pitch: u64,
    pub array_pitch: u64,
    pub depth_pitch: u64,
}

/// The host or the device ran out of memory; this backend never does.
#[derive(Clone, Copy, Debug, PartialEq, Eq, Structural)]
pub enum OutOfMemory {
    Host,
    Device,
}

/// Failure to allocate memory or an object; this backend produces none.
#[derive(Clone, Copy, Debug, PartialEq, Eq, Structural)]
pub enum AllocationError {
    OutOfMemory(OutOfMemory),
    TooManyObjects,
}

/// Failure to create a shader module; this backend produces none.
#[derive(Clone, Copy, Debug, PartialEq, Eq, Structural)]
pub enum ShaderError {
    CompilationFailed,
    OutOfMemory(OutOfMemory),
}

/// Failure to bind memory to a resource; this backend produces none.
#[derive(Clone, Copy, Debug, PartialEq, Eq, Structural)]
pub enum BindError {
    OutOfMemory(OutOfMemory),
    WrongMemory,
    OutOfBounds,
}

/// Failure to map memory; this backend produces none.
#[derive(Clone, Copy, Debug, PartialEq, Eq, Structural)]
pub enum MapError {
    OutOfMemory(OutOfMemory),
    OutOfBounds,
    MappingFailed,
}

/// The device ran out of memory or was lost; this backend produces neither.
#[derive(Clone, Copy, Debug, PartialEq, Eq, Structural)]
pub enum OomOrDeviceLost {
    OutOfMemory(OutOfMemory),
    DeviceLost,
}

/// The logical device. Every resource it creates is the sentinel handle.
#[derive(Debug, PartialEq, Eq, Structural)]
pub struct Device;

impl Device {
    /// A command pool for the family.
    pub fn create_command_pool(&self, family: QueueFamilyId, flags: u8) -> (r: Result<CommandPool, OutOfMemory>)
        ensures
            r == Ok::<CommandPool, OutOfMemory>(CommandPool),
    {
        Ok(CommandPool)
    }

    /// Nothing to release.
    pub fn destroy_command_pool(&self, pool: CommandPool) {
    }

    /// Memory of any type and size; nothing is reserved.
    pub fn allocate_memory(&self, memory_type: usize, size: u64) -> (r: Result<Handle, AllocationError>)
        ensures
            r == Ok::<Handle, AllocationError>(Handle),
    {
        Ok(Handle)
    }

    /// A render pass with the given numbers of attachments, subpasses and dependencies.
    pub fn create_render_pass(&self, attachments: usize, subpasses: usize, dependencies: usize) -> (r: Result<Handle, OutOfMemory>)
        ensures
            r == Ok::<Handle, OutOfMemory>(Handle),
    {
        Ok(Handle)
    }

    /// A pipeline layout over the given descriptor set layouts.
    pub fn create_pipeline_layout(&self, set_layouts: &[Handle], push_constant_ranges: usize) -> (r: Result<Handle, OutOfMemory>)
        ensures
            r == Ok::<Handle, OutOfMemory>(Handle),
    {
        Ok(Handle)
    }

    /// Pipeline caches need a native backend.
    pub fn create_pipeline_cache(&self, data: Option<&[u8]>) -> (r: Result<Handle, Unsupported>)
        ensures
            r == Err::<Handle, Unsupported>(Unsupported),
    {
        Err(Unsupported)
    }

    /// Pipeline caches need a native backend.
    pub fn get_pipeline_cache_data(&self, cache: &Handle) -> (r: Result<Vec<u8>, Unsupported>)
        ensures
            r == Err::<Vec<u8>, Unsupported>(Unsupported),
    {
        Err(Unsupported)
    }

    /// Pipeline caches need a native backend.
    pub fn destroy_pipeline_cache(&self, cache: Handle) -> (r: Result<(), Unsupported>)
        ensures
            r == Err::<(), Unsupported>(Unsupported),
    {
        Err(Unsupported)
    }

    /// A graphics pipeline; its description is not inspected.
    pub fn create_graphics_pipeline(&self, layout: &Handle, cache: Option<&Handle>) -> (r: Result<Handle, OutOfMemory>)
        ensures
            r == Ok::<Handle, OutOfMemory>(Handle),
    {
        Ok(Handle)
    }

    /// Compute pipelines need a native backend.
    pub fn create_compute_pipeline(&self, layout: &Handle, cache: Option<&Handle>) -> (r: Result<Handle, Unsupported>)
        ensures
            r == Err::<Handle, Unsupported>(Unsupported),
    {
        Err(Unsupported)
    }

    /// Pipeline caches need a native backend.
    pub fn merge_pipeline_caches(&self, target: &Handle, sources: &[Handle]) -> (r: Result<(), Unsupported>)
        ensures
            r == Err::<(), Unsupported>(Unsupported),
    {
        Err(Unsupported)
    }

    /// A framebuffer of the render pass.
    pub fn create_framebuffer(&self, render_pass: &Handle, attachments: &[Handle], extent: Extent3D) -> (r: Result<Handle, OutOfMemory>)
        ensures
            r == Ok::<Handle, OutOfMemory>(Handle),
    {
        Ok(Handle)
    }

    /// A shader module; the code is not inspected.
    pub fn create_shader_module(&self, spirv: &[u32]) -> (r: Result<Handle, ShaderError>)
        ensures
            r == Ok::<Handle, ShaderError>(Handle),
    {
        Ok(Handle)
    }

    /// A sampler; its description is not inspected.
    pub fn create_sampler(&self) -> (r: Result<Handle, AllocationError>)
        ensures
            r == Ok::<Handle, AllocationError>(Handle),
    {
        Ok(Handle)
    }

    /// A buffer of any size and usage.
    pub fn create_buffer(&self, size: u64, usage: u32) -> (r: Result<Handle, OutOfMemory>)
        ensures
            r == Ok::<Handle, OutOfMemory>(Handle),
    {
        Ok(Handle)
    }

    /// The placeholder requirement of every buffer: one byte, aligned to
    /// one, of any memory type.
    pub fn get_buffer_requirements(&self, buffer: &Handle) -> (r: Requirements)
        ensures
            r == placeholder_requirements(),
    {
        assert(!0u64 == 0xffff_ffff_ffff_ffffu64) by (bit_vector);
        Requirements { size: 1, alignment: 1, type_mask: !0u64 }
    }

    /// Binds the buffer to memory; the handle stays the sentinel.
    pub fn bind_buffer_memory(&self, memory: &Handle, offset: u64, buffer: &mut Handle) -> (r: Result<(), BindError>)
        ensures
            r == Ok::<(), BindError>(()),
    {
        Ok(())
    }

    /// Buffer views need a native backend.
    pub fn create_buffer_view(&self, buffer: &Handle, format: Option<u32>, offset: u64, size: Option<u64>) -> (r: Result<Handle, Unsupported>)
        ensures
            r == Err::<Handle, Unsupported>(Unsupported),
    {
        Err(Unsupported)
    }

    /// An image of any kind, format and usage.
    pub fn create_image(&self, extent: Extent3D, layers: u16, mip_levels: u8, format: u32, usage: u32) -> (r: Result<Handle, OutOfMemory>)
        ensures
            r == Ok::<Handle, OutOfMemory>(Handle),
    {
        Ok(Handle)
    }

    /// The placeholder requirement of every image: one byte, aligned to one,
    /// of any memory type.
    pub fn get_image_requirements(&self, image: &Handle) -> (r: Requirements)
        ensures
            r == placeholder_requirements(),
    {
        assert(!0u64 == 0xffff_ffff_ffff_ffffu64) by (bit_vector);
        Requirements { size: 1, alignment: 1, type_mask: !0u64 }
    }

    /// Subresource footprints need a native backend.
    pub fn get_image_subresource_footprint(&self, image: &Handle, mip_level: u8, layer: u16) -> (r: Result<SubresourceFootprint, Unsupported>)
        ensures
            r == Err::<SubresourceFootprint, Unsupported>(Unsupported),
    {
        Err(Unsupported)
    }

    /// Binds the image to memory; the handle stays the sentinel.
    pub fn bind_image_memory(&self, memory: &Handle, offset: u64, image: &mut Handle) -> (r: Result<(), BindError>)
        ensures
            r == Ok::<(), BindError>(()),
    {
        Ok(())
    }

    /// A view of the image.
    pub fn create_image_view(&self, image: &Handle, format: u32) -> (r: Result<Handle, OutOfMemory>)
        ensures
            r == Ok::<Handle, OutOfMemory>(Handle),
    {
        Ok(Handle)
    }

    /// A descriptor pool; its bounds are not tracked.
    pub fn create_descriptor_pool(&self, max_sets: usize, ranges: usize) -> (r: Result<DescriptorPool, OutOfMemory>)
        ensures
            r == Ok::<DescriptorPool, OutOfMemory>(DescriptorPool),
    {
        Ok(DescriptorPool)
    }

    /// A descriptor set layout.
    pub fn create_descriptor_set_layout(&self, bindings: usize, immutable_samplers: &[Handle]) -> (r: Result<Handle, OutOfMemory>)
        ensures
            r == Ok::<Handle, OutOfMemory>(Handle),
    {
        Ok(Handle)
    }

    /// Descriptor writes are accepted and not recorded.
    pub fn write_descriptor_sets(&self, writes: usize) {
    }

    /// Descriptor copies need a native backend.
    pub fn copy_descriptor_sets(&self, copies: usize) -> (r: Result<(), Unsupported>)
        ensures
            r == Err::<(), Unsupported>(Unsupported),
    {
        Err(Unsupported)
    }

    /// A semaphore.
    pub fn create_semaphore(&self) -> (r: Result<Handle, OutOfMemory>)
        ensures
            r == Ok::<Handle, OutOfMemory>(Handle),
    {
        Ok(Handle)
    }

    /// A fence, whatever its initial state.
    pub fn create_fence(&self, signaled: bool) -> (r: Result<Handle, OutOfMemory>)
        ensures
            r == Ok::<Handle, OutOfMemory>(Handle),
    {
        Ok(Handle)
    }

    /// Fence status queries need a native backend.
    pub fn get_fence_status(&self, fence: &Handle) -> (r: Result<bool, Unsupported>)
        ensures
            r == Err::<bool, Unsupported>(Unsupported),
    {
        Err(Unsupported)
    }

    /// Events need a native backend.
    pub fn create_event(&self) -> (r: Result<Handle, Unsupported>)
        ensures
            r == Err::<Handle, Unsupported>(Unsupported),
    {
        Err(Unsupported)
    }

    /// Events need a native backend.
    pub fn get_event_status(&self, event: &Handle) -> (r: Result<bool, Unsupported>)
        ensures
            r == Err::<bool, Unsupported>(Unsupported),
    {
        Err(Unsupported)
    }

    /// Events need a native backend.
    pub fn set_event(&self, event: &Handle) -> (r: Result<(), Unsupported>)
        ensures
            r == Err::<(), Unsupported>(Unsupported),
    {
        Err(Unsupported)
    }

    /// Events need a native backend.
    pub fn reset_event(&self, event: &Handle) -> (r: Result<(), Unsupported>)
        ensures
            r == Err::<(), Unsupported>(Unsupported),
    {
        Err(Unsupported)
    }

    /// Query pools need a native backend.
    pub fn create_query_pool(&self, query_type: u32, count: u32) -> (r: Result<Handle, Unsupported>)
        ensures
            r == Err::<Handle, Unsupported>(Unsupported),
    {
        Err(Unsupported)
    }

    /// Query pools need a native backend.
    pub fn destroy_query_pool(&self, pool: Handle) -> (r: Result<(), Unsupported>)
        ensures
            r == Err::<(), Unsupported>(Unsupported),
    {
        Err(Unsupported)
    }

    /// Query pools need a native backend.
    pub fn get_query_pool_results(&self, pool: &Handle, first: u32, end: u32, data: &mut [u8], stride: u64) -> (r: Result<bool, Unsupported>)
        ensures
            r == Err::<bool, Unsupported>(Unsupported),
    {
        Err(Unsupported)
    }

    /// Maps memory into the host's address space: whichever memory and
    /// segment is asked for, the result is the start of the one shared
    /// scratch region.
    pub fn map_memory(&self, memory: &Handle, segment: Segment) -> (r: Result<MappedRegion, MapError>)
        ensures
            r == Ok::<MappedRegion, MapError>(mapping_of(*memory, segment)),
    {
        Ok(MappedRegion { offset: 0, len: SCRATCH_SIZE })
    }

    /// Nothing was mapped for this memory alone.
    pub fn unmap_memory(&self, memory: &Handle) {
    }

    /// There is nothing to write back.
    pub fn flush_mapped_memory_ranges(&self, ranges: &[(Handle, Segment)]) -> (r: Result<(), OutOfMemory>)
        ensures
            r == Ok::<(), OutOfMemory>(()),
    {
        Ok(())
    }

    /// Invalidating mapped ranges needs a native backend.
    pub fn invalidate_mapped_memory_ranges(&self, ranges: &[(Handle, Segment)]) -> (r: Result<(), Unsupported>)
        ensures
            r == Err::<(), Unsupported>(Unsupported),
    {
        Err(Unsupported)
    }

    /// Nothing to release.
    pub fn free_memory(&self, memory: Handle) {
    }

    /// Nothing to release.
    pub fn destroy_shader_module(&self, module: Handle) {
    }

    /// Nothing to release.
    pub fn destroy_render_pass(&self, render_pass: Handle) {
    }

    /// Nothing to release.
    pub fn destroy_pipeline_layout(&self, layout: Handle) {
    }

    /// Nothing to release.
    pub fn destroy_graphics_pipeline(&self, pipeline: Handle) {
    }

    /// Compute pipelines need a native backend.
    pub fn destroy_compute_pipeline(&self, pipeline: Handle) -> (r: Result<(), Unsupported>)
        ensures
            r == Err::<(), Unsupported>(Unsupported),
    {
        Err(Unsupported)
    }

    /// Nothing to release.
    pub fn destroy_framebuffer(&self, framebuffer: Handle) {
    }

    /// Nothing to release.
    pub fn destroy_buffer(&self, buffer: Handle) {
    }

    /// Buffer views need a native backend.
    pub fn destroy_buffer_view(&self, view: Handle) -> (r: Result<(), Unsupported>)
        ensures
            r == Err::<(), Unsupported>(Unsupported),
    {
        Err(Unsupported)
    }

    /// Nothing to release.
    pub fn destroy_image(&self, image: Handle) {
    }

    /// Nothing to release.
    pub fn destroy_image_view(&self, view: Handle) {
    }

    /// Nothing to release.
    pub fn destroy_sampler(&self, sampler: Handle) {
    }

    /// Nothing to release.
    pub fn destroy_descriptor_pool(&self, pool: DescriptorPool) {
    }

    /// Nothing to release.
    pub fn destroy_descriptor_set_layout(&self, layout: Handle) {
    }

    /// Nothing to release.
    pub fn destroy_fence(&self, fence: Handle) {
    }

    /// Nothing to release.
    pub fn destroy_semaphore(&self, semaphore: Handle) {
    }

    /// Events need a native backend.
    pub fn destroy_event(&self, event: Handle) -> (r: Result<(), Unsupported>)
        ensures
            r == Err::<(), Unsupported>(Unsupported),
    {
        Err(Unsupported)
    }

    /// Classic swapchains need a native backend.
    pub fn create_swapchain(&self, surface: &mut Surface, config: SwapchainConfig, old_swapchain: Option<Swapchain>) -> (r: Result<(Swapchain, Vec<Handle>), Unsupported>)
        ensures
            r == Err::<(Swapchain, Vec<Handle>), Unsupported>(Unsupported),
    {
        Err(Unsupported)
    }

    /// Classic swapchains need a native backend.
    pub fn destroy_swapchain(&self, swapchain: Swapchain) -> (r: Result<(), Unsupported>)
        ensures
            r == Err::<(), Unsupported>(Unsupported),
    {
        Err(Unsupported)
    }

    /// Nothing is ever in flight, so the device is idle at once.
    pub fn wait_idle(&self) -> (r: Result<(), OutOfMemory>)
        ensures
            r == Ok::<(), OutOfMemory>(()),
    {
        Ok(())
    }

    /// Debug names need a native backend.
    pub fn set_image_name(&self, object: &mut Handle, name: &str) -> (r: Result<(), Unsupported>)
        ensures
            r == Err::<(), Unsupported>(Unsupported),
    {
        Err(Unsupported)
    }

    /// Debug names need a native backend.
    pub fn set_buffer_name(&self, object: &mut Handle, name: &str) -> (r: Result<(), Unsupported>)
        ensures
            r == Err::<(), Unsupported>(Unsupported),
    {
        Err(Unsupported)
    }

    /// Debug names need a native backend.
    pub fn set_command_buffer_name(&self, object: &mut CommandBuffer, name: &str) -> (r: Result<(), Unsupported>)
        ensures
            r == Err::<(), Unsupported>(Unsupported),
    {
        Err(Unsupported)
    }

    /// Debug names need a native backend.
    pub fn set_semaphore_name(&self, object: &mut Handle, name: &str) -> (r: Result<(), Unsupported>)
        ensures
            r == Err::<(), Unsupported>(Unsupported),
    {
        Err(Unsupported)
    }

    /// Debug names need a native backend.
    pub fn set_fence_name(&self, object: &mut Handle, name: &str) -> (r: Result<(), Unsupported>)
        ensures
            r == Err::<(), Unsupported>(Unsupported),
    {
        Err(Unsupported)
    }

    /// Debug names need a native backend.
    pub fn set_framebuffer_name(&self, object: &mut Handle, name: &str) -> (r: Result<(), Unsupported>)
        ensures
            r == Err::<(), Unsupported>(Unsupported),
    {
        Err(Unsupported)
    }

    /// Debug names need a native backend.
    pub fn set_render_pass_name(&self, object: &mut Handle, name: &str) -> (r: Result<(), Unsupported>)
        ensures
            r == Err::<(), Unsupported>(Unsupported),
    {
        Err(Unsupported)
    }

    /// Debug names need a native backend.
    pub fn set_descriptor_set_name(&self, object: &mut Handle, name: &str) -> (r: Result<(), Unsupported>)
        ensures
            r == Err::<(), Unsupported>(Unsupported),
    {
        Err(Unsupported)
    }

    /// Debug names need a native backend.
    pub fn set_descriptor_set_layout_name(&self, object: &mut Handle, name: &str) -> (r: Result<(), Unsupported>)
        ensures
            r == Err::<(), Unsupported>(Unsupported),
    {
        Err(Unsupported)
    }

    /// Resets the fence.
    pub fn reset_fence(&self, fence: &Handle) -> (r: Result<(), OutOfMemory>)
        ensures
            r == Ok::<(), OutOfMemory>(()),
    {
        Ok(())
    }

    /// Waits for the fence: no work is ever in flight, so it is signalled at
    /// once, whatever the timeout, zero included.
    pub fn wait_for_fence(&self, fence: &Handle, timeout_ns: u64) -> (r: Result<bool, OomOrDeviceLost>)
        ensures
            r == Ok::<bool, OomOrDeviceLost>(true),
    {
        Ok(true)
    }
}

} // verus!
