//! The logical device: the per-open-session owner of GPU-visible
//! objects.  It shares the context handle with the physical device that
//! opened it, and closing it clears the open flag so the context can be
//! opened again.

use vstd::prelude::*;

use crate::command::RawCommandPool;
use crate::native::Fence;
use crate::native::Semaphore;
use crate::share::Share;
use crate::share::ShareCell;
use crate::share::Starc;

verus! {

/// One logical-device session over the shared context.
#[derive(Debug)]
pub struct Device {
    starc: Starc,
}

impl Device {
    /// Which cell this device's context handle refers to.
    pub closed spec fn share_id(&self) -> u64 {
        self.starc.share_id()
    }

    /// The owning thread captured by this device's context handle.
    pub closed spec fn thread_id(&self) -> u64 {
        self.starc.thread_id()
    }

    /// This device's handle refers to `cell`.
    pub open spec fn refers_to(&self, cell: ShareCell) -> bool {
        self.share_id() == cell.cell_id() && self.thread_id() == cell.owner_thread()
    }

    /// Build the device around one strong context handle.
    pub fn new(starc: Starc) -> (r: Device)
        ensures
            r.share_id() == starc.share_id(),
            r.thread_id() == starc.thread_id(),
    {
        Device { starc }
    }

    /// Allocate a command pool; it starts with no buffers.
    pub fn create_command_pool(&self) -> (r: RawCommandPool)
        ensures
            r.buffers().len() == 0,
    {
        RawCommandPool::new()
    }

    /// Create a fence in the given initial state.
    pub fn create_fence(&self, signaled: bool) -> (r: Fence)
        ensures
            r.signaled() == signaled,
    {
        Fence::new(signaled)
    }

    /// Create an unsignaled semaphore.
    pub fn create_semaphore(&self) -> (r: Semaphore)
        ensures
            !r.signaled(),
    {
        Semaphore::new()
    }

    /// End the session: clear the open flag, so that the physical
    /// device may open again, and retire this device's context handle.
    pub fn close(self, cell: &mut ShareCell)
        requires
            self.refers_to(*old(cell)),
            old(cell).wf(),
            old(cell).strong_count() >= 1,
        ensures
            final(cell).cell_id() == old(cell).cell_id(),
            final(cell).owner_thread() == old(cell).owner_thread(),
            final(cell).strong_count() == old(cell).strong_count() - 1,
            final(cell).weak_count() == old(cell).weak_count(),
            old(cell).strong_count() > 1 ==> final(cell).contents() == Some(
                Share { open: false, ..old(cell).contents()->Some_0 },
            ),
            old(cell).strong_count() == 1 ==> final(cell).contents() is None,
            final(cell).wf(),
    {
        cell.set_open(false);
        self.starc.release(cell);
    }
}

} // verus!
