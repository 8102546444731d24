//! Handle identities.
//!
//! Every object the engine creates on the device is represented here by a
//! numeric handle.  The mint hands them out one by one, in order, so the
//! engine can reason about which objects a rebuild replaced and which it
//! left alone.

use vstd::prelude::*;

verus! {

/// Source of never-reused handle values.  Handle `0` is reserved as the
/// null handle and is never minted.
#[derive(Clone, Copy, PartialEq, Eq, Structural, Debug)]
pub struct HandleMint {
    pub next: u64,
}

impl HandleMint {
    pub fn new() -> (m: HandleMint)
        ensures
            m.next == 1,
    {
        HandleMint { next: 1 }
    }

    /// Mints the next handle.
    pub fn fresh(&mut self) -> (h: u64)
        requires
            old(self).next < u64::MAX,
        ensures
            h == old(self).next,
            final(self).next == old(self).next + 1,
    {
        let h = self.next;
        self.next = self.next + 1;
        h
    }
}

} // verus!
