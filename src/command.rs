//! Command pools, command buffers and descriptor pools.
use vstd::prelude::*;

use crate::device::AllocationError;
use crate::support::{Handle, Unsupported};

verus! {

/// The level of a command buffer: primary buffers are submitted to a queue,
/// secondary ones are executed from a primary one.
#[derive(Clone, Copy, Debug, PartialEq, Eq, Structural)]
pub enum Level {
    Primary,
    Secondary,
}

/// A command buffer level other than primary was asked for.
#[derive(Clone, Copy, Debug, PartialEq, Eq, Structural)]
pub struct SecondaryLevel;

/// Diagnostic for a request of a command buffer that is not primary.
pub const SECONDARY_LEVEL_MESSAGE: &'static str = "Only primary command buffers are supported";

impl SecondaryLevel {
    /// The diagnostic that goes with the error.
    pub fn message(&self) -> (r: &'static str)
        ensures
            r == SECONDARY_LEVEL_MESSAGE,
    {
        SECONDARY_LEVEL_MESSAGE
    }
}

/// Checks the level of a command buffer to be allocated: only primary ones
/// can be.
pub fn check_level(level: Level) -> (r: Result<(), SecondaryLevel>)
    ensures
        r is Ok <==> level == Level::Primary,
{
    match level {
        Level::Primary => Ok(()),
        Level::Secondary => Err(SecondaryLevel),
    }
}

/// A command pool; it hands out primary command buffers only.
#[derive(Debug, PartialEq, Eq, Structural)]
pub struct CommandPool;

impl CommandPool {
    /// A fresh primary command buffer.
    pub fn allocate_one(&mut self, level: Level) -> (r: CommandBuffer)
        requires
            level == Level::Primary,
        ensures
            r == CommandBuffer,
            *final(self) == *old(self),
    {
        CommandBuffer
    }

    /// Resets the pool; its buffers hold nothing to drop.
    pub fn reset(&mut self, release_resources: bool)
        ensures
            *final(self) == *old(self),
    {
    }

    /// Freeing single command buffers needs a native backend.
    pub fn free(&mut self, buffers: Vec<CommandBuffer>) -> (r: Result<(), Unsupported>)
        ensures
            r == Err::<(), Unsupported>(Unsupported),
    {
        Err(Unsupported)
    }
}

/// A command buffer that records nothing.
#[derive(Debug, PartialEq, Eq, Structural)]
pub struct CommandBuffer;

impl CommandBuffer {
    /// Starts recording; nothing is kept.
    pub fn begin(&mut self, flags: u32, inheritance: Option<&Handle>)
        ensures
            *final(self) == *old(self),
    {
    }

    /// Ends recording; nothing is kept.
    pub fn finish(&mut self)
        ensures
            *final(self) == *old(self),
    {
    }

    /// Resetting a single command buffer needs a native backend.
    pub fn reset(&mut self, release_resources: bool) -> (r: Result<(), Unsupported>)
        ensures
            r == Err::<(), Unsupported>(Unsupported),
    {
        Err(Unsupported)
    }

    /// A barrier is accepted and not recorded.
    pub fn pipeline_barrier(&mut self, src_stages: u32, dst_stages: u32, barriers: usize)
        ensures
            *final(self) == *old(self),
    {
    }

    /// Buffer fills need a native backend.
    pub fn fill_buffer(&mut self, buffer: &Handle, offset: u64, size: Option<u64>, data: u32) -> (r: Result<(), Unsupported>)
        ensures
            r == Err::<(), Unsupported>(Unsupported),
    {
        Err(Unsupported)
    }

    /// Buffer updates need a native backend.
    pub fn update_buffer(&mut self, buffer: &Handle, offset: u64, data: &[u8]) -> (r: Result<(), Unsupported>)
        ensures
            r == Err::<(), Unsupported>(Unsupported),
    {
        Err(Unsupported)
    }

    /// Image clears need a native backend.
    pub fn clear_image(&mut self, image: &Handle, subresource_ranges: usize) -> (r: Result<(), Unsupported>)
        ensures
            r == Err::<(), Unsupported>(Unsupported),
    {
        Err(Unsupported)
    }

    /// Attachment clears need a native backend.
    pub fn clear_attachments(&mut self, clears: usize, rects: usize) -> (r: Result<(), Unsupported>)
        ensures
            r == Err::<(), Unsupported>(Unsupported),
    {
        Err(Unsupported)
    }

    /// Image resolves need a native backend.
    pub fn resolve_image(&mut self, src: &Handle, dst: &Handle, regions: usize) -> (r: Result<(), Unsupported>)
        ensures
            r == Err::<(), Unsupported>(Unsupported),
    {
        Err(Unsupported)
    }

    /// Image blits need a native backend.
    pub fn blit_image(&mut self, src: &Handle, dst: &Handle, regions: usize) -> (r: Result<(), Unsupported>)
        ensures
            r == Err::<(), Unsupported>(Unsupported),
    {
        Err(Unsupported)
    }

    /// Index buffers need a native backend.
    pub fn bind_index_buffer(&mut self, buffer: &Handle, offset: u64) -> (r: Result<(), Unsupported>)
        ensures
            r == Err::<(), Unsupported>(Unsupported),
    {
        Err(Unsupported)
    }

    /// Vertex buffer bindings are accepted and not recorded.
    pub fn bind_vertex_buffers(&mut self, first_binding: u32, buffers: &[(Handle, u64)])
        ensures
            *final(self) == *old(self),
    {
    }

    /// Viewports are accepted and not recorded.
    pub fn set_viewports(&mut self, first_viewport: u32, viewports: usize)
        ensures
            *final(self) == *old(self),
    {
    }

    /// Scissor rectangles are accepted and not recorded.
    pub fn set_scissors(&mut self, first_scissor: u32, rects: usize)
        ensures
            *final(self) == *old(self),
    {
    }

    /// Dynamic stencil state needs a native backend.
    pub fn set_stencil_reference(&mut self, faces: u32, value: u32) -> (r: Result<(), Unsupported>)
        ensures
            r == Err::<(), Unsupported>(Unsupported),
    {
        Err(Unsupported)
    }

    /// Dynamic stencil state needs a native backend.
    pub fn set_stencil_read_mask(&mut self, faces: u32, value: u32) -> (r: Result<(), Unsupported>)
        ensures
            r == Err::<(), Unsupported>(Unsupported),
    {
        Err(Unsupported)
    }

    /// Dynamic stencil state needs a native backend.
    pub fn set_stencil_write_mask(&mut self, faces: u32, value: u32) -> (r: Result<(), Unsupported>)
        ensures
            r == Err::<(), Unsupported>(Unsupported),
    {
        Err(Unsupported)
    }

    /// Dynamic blend constants need a native backend.
    pub fn set_blend_constants(&mut self) -> (r: Result<(), Unsupported>)
        ensures
            r == Err::<(), Unsupported>(Unsupported),
    {
        Err(Unsupported)
    }

    /// Dynamic depth bounds need a native backend.
    pub fn set_depth_bounds(&mut self) -> (r: Result<(), Unsupported>)
        ensures
            r == Err::<(), Unsupported>(Unsupported),
    {
        Err(Unsupported)
    }

    /// Dynamic line width needs a native backend.
    pub fn set_line_width(&mut self) -> (r: Result<(), Unsupported>)
        ensures
            r == Err::<(), Unsupported>(Unsupported),
    {
        Err(Unsupported)
    }

    /// Dynamic depth bias needs a native backend.
    pub fn set_depth_bias(&mut self) -> (r: Result<(), Unsupported>)
        ensures
            r == Err::<(), Unsupported>(Unsupported),
    {
        Err(Unsupported)
    }

    /// Opens a render pass; nothing is recorded.
    pub fn begin_render_pass(&mut self, render_pass: &Handle, framebuffer: &Handle, clear_values: usize)
        ensures
            *final(self) == *old(self),
    {
    }

    /// Subpass transitions need a native backend.
    pub fn next_subpass(&mut self) -> (r: Result<(), Unsupported>)
        ensures
            r == Err::<(), Unsupported>(Unsupported),
    {
        Err(Unsupported)
    }

    /// Closes the render pass; nothing is recorded.
    pub fn end_render_pass(&mut self)
        ensures
            *final(self) == *old(self),
    {
    }

    /// A graphics pipeline binding is accepted and not recorded.
    pub fn bind_graphics_pipeline(&mut self, pipeline: &Handle)
        ensures
            *final(self) == *old(self),
    {
    }

    /// Descriptor set bindings are accepted and not recorded.
    pub fn bind_graphics_descriptor_sets(&mut self, layout: &Handle, first_set: usize, sets: &[Handle], dynamic_offsets: &[u32])
        ensures
            *final(self) == *old(self),
    {
    }

    /// Compute needs a native backend.
    pub fn bind_compute_pipeline(&mut self, pipeline: &Handle) -> (r: Result<(), Unsupported>)
        ensures
            r == Err::<(), Unsupported>(Unsupported),
    {
        Err(Unsupported)
    }

    /// Compute needs a native backend.
    pub fn bind_compute_descriptor_sets(&mut self, layout: &Handle, first_set: usize, sets: &[Handle], dynamic_offsets: &[u32]) -> (r: Result<(), Unsupported>)
        ensures
            r == Err::<(), Unsupported>(Unsupported),
    {
        Err(Unsupported)
    }

    /// Compute needs a native backend.
    pub fn dispatch(&mut self, x: u32, y: u32, z: u32) -> (r: Result<(), Unsupported>)
        ensures
            r == Err::<(), Unsupported>(Unsupported),
    {
        Err(Unsupported)
    }

    /// Indirect dispatch needs a native backend.
    pub fn dispatch_indirect(&mut self, buffer: &Handle, offset: u64) -> (r: Result<(), Unsupported>)
        ensures
            r == Err::<(), Unsupported>(Unsupported),
    {
        Err(Unsupported)
    }

    /// Buffer copies need a native backend.
    pub fn copy_buffer(&mut self, src: &Handle, dst: &Handle, regions: usize) -> (r: Result<(), Unsupported>)
        ensures
            r == Err::<(), Unsupported>(Unsupported),
    {
        Err(Unsupported)
    }

    /// Image copies need a native backend.
    pub fn copy_image(&mut self, src: &Handle, dst: &Handle, regions: usize) -> (r: Result<(), Unsupported>)
        ensures
            r == Err::<(), Unsupported>(Unsupported),
    {
        Err(Unsupported)
    }

    /// A buffer to image copy is accepted and not recorded.
    pub fn copy_buffer_to_image(&mut self, src: &Handle, dst: &Handle, regions: usize)
        ensures
            *final(self) == *old(self),
    {
    }

    /// Image to buffer copies need a native backend.
    pub fn copy_image_to_buffer(&mut self, src: &Handle, dst: &Handle, regions: usize) -> (r: Result<(), Unsupported>)
        ensures
            r == Err::<(), Unsupported>(Unsupported),
    {
        Err(Unsupported)
    }

    /// A draw is accepted and not recorded.
    pub fn draw(&mut self, first_vertex: u32, end_vertex: u32, first_instance: u32, end_instance: u32)
        ensures
            *final(self) == *old(self),
    {
    }

    /// Indexed draws need a native backend.
    pub fn draw_indexed(&mut self, first_index: u32, end_index: u32, base_vertex: i32, first_instance: u32, end_instance: u32) -> (r: Result<(), Unsupported>)
        ensures
            r == Err::<(), Unsupported>(Unsupported),
    {
        Err(Unsupported)
    }

    /// Indirect draws need a native backend.
    pub fn draw_indirect(&mut self, buffer: &Handle, offset: u64, draw_count: u32, stride: u32) -> (r: Result<(), Unsupported>)
        ensures
            r == Err::<(), Unsupported>(Unsupported),
    {
        Err(Unsupported)
    }

    /// Indirect draws need a native backend.
    pub fn draw_indexed_indirect(&mut self, buffer: &Handle, offset: u64, draw_count: u32, stride: u32) -> (r: Result<(), Unsupported>)
        ensures
            r == Err::<(), Unsupported>(Unsupported),
    {
        Err(Unsupported)
    }

    /// Events need a native backend.
    pub fn set_event(&mut self, event: &Handle, stages: u32) -> (r: Result<(), Unsupported>)
        ensures
            r == Err::<(), Unsupported>(Unsupported),
    {
        Err(Unsupported)
    }

    /// Events need a native backend.
    pub fn reset_event(&mut self, event: &Handle, stages: u32) -> (r: Result<(), Unsupported>)
        ensures
            r == Err::<(), Unsupported>(Unsupported),
    {
        Err(Unsupported)
    }

    /// Events need a native backend.
    pub fn wait_events(&mut self, events: &[Handle], src_stages: u32, dst_stages: u32, barriers: usize) -> (r: Result<(), Unsupported>)
        ensures
            r == Err::<(), Unsupported>(Unsupported),
    {
        Err(Unsupported)
    }

    /// Queries need a native backend.
    pub fn begin_query(&mut self, pool: &Handle, id: u32, flags: u32) -> (r: Result<(), Unsupported>)
        ensures
            r == Err::<(), Unsupported>(Unsupported),
    {
        Err(Unsupported)
    }

    /// Queries need a native backend.
    pub fn end_query(&mut self, pool: &Handle, id: u32) -> (r: Result<(), Unsupported>)
        ensures
            r == Err::<(), Unsupported>(Unsupported),
    {
        Err(Unsupported)
    }

    /// Queries need a native backend.
    pub fn reset_query_pool(&mut self, pool: &Handle, first: u32, end: u32) -> (r: Result<(), Unsupported>)
        ensures
            r == Err::<(), Unsupported>(Unsupported),
    {
        Err(Unsupported)
    }

    /// Queries need a native backend.
    pub fn copy_query_pool_results(&mut self, pool: &Handle, first: u32, end: u32, buffer: &Handle, offset: u64, stride: u64, flags: u32) -> (r: Result<(), Unsupported>)
        ensures
            r == Err::<(), Unsupported>(Unsupported),
    {
        Err(Unsupported)
    }

    /// Queries need a native backend.
    pub fn write_timestamp(&mut self, stage: u32, pool: &Handle, id: u32) -> (r: Result<(), Unsupported>)
        ensures
            r == Err::<(), Unsupported>(Unsupported),
    {
        Err(Unsupported)
    }

    /// Push constants need a native backend.
    pub fn push_graphics_constants(&mut self, layout: &Handle, stages: u32, offset: u32, constants: &[u32]) -> (r: Result<(), Unsupported>)
        ensures
            r == Err::<(), Unsupported>(Unsupported),
    {
        Err(Unsupported)
    }

    /// Push constants need a native backend.
    pub fn push_compute_constants(&mut self, layout: &Handle, offset: u32, constants: &[u32]) -> (r: Result<(), Unsupported>)
        ensures
            r == Err::<(), Unsupported>(Unsupported),
    {
        Err(Unsupported)
    }

    /// Secondary command buffers need a native backend.
    pub fn execute_commands(&mut self, buffers: &[CommandBuffer]) -> (r: Result<(), Unsupported>)
        ensures
            r == Err::<(), Unsupported>(Unsupported),
    {
        Err(Unsupported)
    }

    /// Debug markers need a native backend.
    pub fn insert_debug_marker(&mut self, name: &str, color: u32) -> (r: Result<(), Unsupported>)
        ensures
            r == Err::<(), Unsupported>(Unsupported),
    {
        Err(Unsupported)
    }

    /// Debug markers need a native backend.
    pub fn begin_debug_marker(&mut self, name: &str, color: u32) -> (r: Result<(), Unsupported>)
        ensures
            r == Err::<(), Unsupported>(Unsupported),
    {
        Err(Unsupported)
    }

    /// Debug markers need a native backend.
    pub fn end_debug_marker(&mut self) -> (r: Result<(), Unsupported>)
        ensures
            r == Err::<(), Unsupported>(Unsupported),
    {
        Err(Unsupported)
    }
}

/// A descriptor pool that tracks no sets.
#[derive(Debug, PartialEq, Eq, Structural)]
pub struct DescriptorPool;

impl DescriptorPool {
    /// A descriptor set of the given layout; the pool never runs out.
    pub fn allocate_set(&mut self, layout: &Handle) -> (r: Result<Handle, AllocationError>)
        ensures
            r == Ok::<Handle, AllocationError>(Handle),
            *final(self) == *old(self),
    {
        Ok(Handle)
    }

    /// The pool does not track its sets, so it cannot free them.
    pub fn free_sets(&mut self, sets: Vec<Handle>) -> (r: Result<(), Unsupported>)
        ensures
            r == Err::<(), Unsupported>(Unsupported),
    {
        Err(Unsupported)
    }

    /// The pool does not track its sets, so it cannot reset them.
    pub fn reset(&mut self) -> (r: Result<(), Unsupported>)
        ensures
            r == Err::<(), Unsupported>(Unsupported),
    {
        Err(Unsupported)
    }
}

} // verus!
