//! The single command queue and the family it belongs to.
use vstd::prelude::*;

use crate::support::{Handle, Unsupported};
use crate::window::{PresentError, Surface};

verus! {

/// Identifier of a queue family of a physical device.
#[derive(Clone, Copy, Debug, PartialEq, Eq, Structural)]
pub struct QueueFamilyId(pub usize);

/// The operations that the queues of a family support.
#[derive(Clone, Copy, Debug, PartialEq, Eq, Structural)]
pub enum QueueType {
    General,
    Graphics,
    Compute,
    Transfer,
}

/// The identifier of the one queue family this backend exposes.
pub const QUEUE_FAMILY_ID: usize = 0;

/// The one queue family of the physical device: general purpose, one queue.
#[derive(Clone, Copy, Debug, PartialEq, Eq, Structural)]
pub struct QueueFamily;

impl QueueFamily {
    pub fn queue_type(&self) -> (r: QueueType)
        ensures
            r == QueueType::General,
    {
        QueueType::General
    }

    pub fn max_queues(&self) -> (r: usize)
        ensures
            r == 1,
    {
        1
    }

    pub fn id(&self) -> (r: QueueFamilyId)
        ensures
            r == QueueFamilyId(QUEUE_FAMILY_ID),
    {
        QueueFamilyId(QUEUE_FAMILY_ID)
    }
}

/// The queues that were opened from one family.
pub struct QueueGroup {
    pub family: QueueFamilyId,
    pub queues: Vec<CommandQueue>,
}

impl QueueGroup {
    /// An empty group for the given family.
    pub fn new(family: QueueFamilyId) -> (r: QueueGroup)
        ensures
            r.family == family,
            r.queues@.len() == 0,
    {
        QueueGroup { family, queues: Vec::new() }
    }

    /// Adds one queue to the group.
    pub fn add_queue(&mut self, queue: CommandQueue)
        requires
            old(self).queues@.len() < usize::MAX,
        ensures
            final(self).family == old(self).family,
            final(self).queues@ == old(self).queues@.push(queue),
    {
        self.queues.push(queue);
    }
}

/// The command queue. Submissions are accepted and nothing is executed.
#[derive(Debug, PartialEq, Eq, Structural)]
pub struct CommandQueue;

/// Whether a presented image no longer matches the surface exactly.
#[derive(Clone, Copy, Debug, PartialEq, Eq, Structural)]
pub struct Suboptimal;

impl CommandQueue {
    /// Accepts a submission of `command_buffers` command buffers, waiting on
    /// `wait_semaphores` and signalling `signal_semaphores`; none of them is
    /// inspected and the fence, if any, is left as it is.
    pub fn submit(
        &mut self,
        command_buffers: usize,
        wait_semaphores: usize,
        signal_semaphores: usize,
        fence: Option<&Handle>,
    )
        ensures
            *final(self) == *old(self),
    {
    }

    /// Presents the swapchain image of a surface; there is never anything
    /// suboptimal to report.
    pub fn present_surface(
        &mut self,
        surface: &mut Surface,
        image: Handle,
        wait_semaphore: Option<&Handle>,
    ) -> (r: Result<Option<Suboptimal>, PresentError>)
        ensures
            r == Ok::<Option<Suboptimal>, PresentError>(None),
            *final(self) == *old(self),
            *final(surface) == *old(surface),
    {
        Ok(None)
    }

    /// Presentation through a classic swapchain needs a native backend.
    pub fn present(&mut self, swapchains: usize, wait_semaphores: usize) -> (r: Result<
        Option<Suboptimal>,
        Unsupported,
    >)
        ensures
            r == Err::<Option<Suboptimal>, Unsupported>(Unsupported),
    {
        Err(Unsupported)
    }

    /// Waiting for the queue to drain needs a native backend.
    pub fn wait_idle(&self) -> (r: Result<(), Unsupported>)
        ensures
            r == Err::<(), Unsupported>(Unsupported),
    {
        Err(Unsupported)
    }
}

} // verus!
