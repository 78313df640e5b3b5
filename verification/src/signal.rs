//! Cross-thread coordination, modelled as plain state. A signal pair is a
//! waker and a waiter sharing one pending flag: waking sets it, waiting
//! consumes it, and wakes that pile up before the next wait coalesce into
//! one — a consumer must re-check state rather than count wakes. A frame
//! cell is the one-deep slot two pipeline stages exchange frames through:
//! its only operation is a swap, so a lock held around it is held for
//! constant time however large the frame. The callers supply the actual
//! blocking (a condition variable) and the lock around the cell.

use vstd::prelude::*;

use crate::region::Region;

verus! {

/// The state of one wake/wait pair: a single pending flag, set by `wake` and
/// cleared by the wait side. No count is kept, by design.
#[derive(Clone, Copy, Debug, PartialEq, Eq, Structural)]
pub struct Signal {
    pub pending: bool,
}

impl Signal {
    pub fn new() -> (r: Self)
        ensures
            !r.pending,
    {
        Signal { pending: false }
    }

    /// Wake the waiter. Waking an already-woken pair changes nothing: any
    /// number of wakes before the next wait are observed as one.
    pub fn wake(&mut self)
        ensures
            *final(self) == (Signal { pending: true }),
    {
        self.pending = true;
    }

    /// What the wait side observes when it runs: whether a wake was pending,
    /// consuming it.
    pub fn take(&mut self) -> (was: bool)
        ensures
            !final(self).pending,
            was == old(self).pending,
    {
        let was = self.pending;
        self.pending = false;
        was
    }
}

/// A "latest value" cell of capacity one: the ownership-transfer slot between
/// two pipeline stages. The region inside and the region outside trade
/// places; no bytes are copied.
#[derive(Debug)]
pub struct FrameCell {
    pub region: Region,
}

impl FrameCell {
    pub fn new() -> (r: Self)
        ensures
            r.region.wf(),
            r.region.data_spec() == Seq::<u8>::empty(),
            r.region.cap_spec() == 0,
    {
        FrameCell { region: Region::default() }
    }

    /// Exchange the held region with the caller's, in constant time.
    pub fn swap(&mut self, other: &mut Region)
        ensures
            final(self).region == *old(other),
            *final(other) == old(self).region,
    {
        core::mem::swap(&mut self.region, other);
    }
}

} // verus!
