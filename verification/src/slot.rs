//! The single storage location for the worker's process handle.

use vstd::prelude::*;

verus! {

/// A cell that tracks at most one worker process handle.
///
/// `H` is the capability that stands for a live process. The slot never looks
/// inside it: it only keeps it, and gives it up exactly once.
///
/// Exclusive access is the borrow itself: every operation that changes the
/// slot takes `&mut self`, so two callers can never observe and take the same
/// handle. Callers on several threads keep the slot behind a lock.
pub struct ProcessSlot<H> {
    handle: Option<H>,
}

impl<H> View for ProcessSlot<H> {
    type V = Option<H>;

    closed spec fn view(&self) -> Option<H> {
        self.handle
    }
}

impl<H> ProcessSlot<H> {
    /// An empty slot, as it is at application startup.
    pub fn new() -> (slot: Self)
        ensures
            slot@ is None,
    {
        ProcessSlot { handle: None }
    }

    /// Whether no process is tracked.
    pub fn is_empty(&self) -> (empty: bool)
        ensures
            empty == (self@ is None),
    {
        self.handle.is_none()
    }

    /// Tracks `handle`, and hands back the handle that it displaces, if any,
    /// so that no handle is ever dropped unseen.
    pub fn store(&mut self, handle: H) -> (displaced: Option<H>)
        ensures
            final(self)@ == Some(handle),
            displaced == old(self)@,
        no_unwind
    {
        let mut displaced = Some(handle);
        core::mem::swap(&mut self.handle, &mut displaced);
        displaced
    }

    /// Reads and clears the slot in one step: the caller gets the handle, if
    /// one was there, and the slot is empty afterwards, whatever it held.
    pub fn take(&mut self) -> (taken: Option<H>)
        ensures
            taken == old(self)@,
            final(self)@ is None,
        no_unwind
    {
        let mut taken = None;
        core::mem::swap(&mut self.handle, &mut taken);
        taken
    }
}

} // verus!
