//! Synchronization primitives: fences (host-observable) and semaphores
//! (ordering work across batches and queues).
//!
//! Both track issuance order, consistent with the legacy context's own
//! completion model: a queue signals them when a batch retires, that
//! is, once every native call of the batch has been issued.

use vstd::prelude::*;

verus! {

/// A host-observable synchronization primitive, signaled when the
/// batch it was submitted with retires, and waited on by the host.
#[derive(Copy, Clone, Debug, PartialEq, Eq, Structural)]
pub struct Fence {
    signaled: bool,
}

impl Fence {
    /// Whether the fence is signaled.
    pub closed spec fn signaled(&self) -> bool {
        self.signaled
    }

    /// A fresh fence in the given state.
    pub fn new(signaled: bool) -> (r: Fence)
        ensures
            r.signaled() == signaled,
    {
        Fence { signaled }
    }

    /// Host-side poll of the fence state.
    pub fn is_signaled(&self) -> (r: bool)
        ensures
            r == self.signaled(),
    {
        self.signaled
    }

    /// Return the fence to the unsignaled state.
    pub fn reset(&mut self)
        ensures
            !final(self).signaled(),
    {
        self.signaled = false;
    }

    pub(crate) fn set_signaled(&mut self, signaled: bool)
        ensures
            final(self).signaled() == signaled,
    {
        self.signaled = signaled;
    }
}

/// A device-side synchronization primitive ordering batches: signaled
/// when one batch retires, consumed by the wait of a later
/// submission.
#[derive(Copy, Clone, Debug, PartialEq, Eq, Structural)]
pub struct Semaphore {
    signaled: bool,
}

impl Semaphore {
    /// Whether the semaphore is signaled.
    pub closed spec fn signaled(&self) -> bool {
        self.signaled
    }

    /// A fresh, unsignaled semaphore.
    pub fn new() -> (r: Semaphore)
        ensures
            !r.signaled(),
    {
        Semaphore { signaled: false }
    }

    /// Poll the semaphore state.
    pub fn is_signaled(&self) -> (r: bool)
        ensures
            r == self.signaled(),
    {
        self.signaled
    }

    pub(crate) fn with_state(signaled: bool) -> (r: Semaphore)
        ensures
            r.signaled() == signaled,
    {
        Semaphore { signaled }
    }
}

} // verus!
