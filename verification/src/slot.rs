//! The single-slot cache for the last computed pending block.
//!
//! The slot only stores and hands out a value; callers do their assembly
//! work first and acquire the slot briefly to inspect or replace what it
//! holds. Exclusive access is the surrounding runtime's concern: wrap the
//! slot in whatever lock the host offers and hold it only across these
//! calls, never across a recomputation.

use vstd::prelude::*;
use crate::model::PendingBlock;

verus! {

/// A single-slot cache holding the last computed pending block, if any.
pub struct PendingSlot {
    pub value: Option<PendingBlock>,
}

impl PendingSlot {
    /// An empty slot.
    pub fn new() -> (s: PendingSlot)
        ensures
            s.value is None,
    {
        PendingSlot { value: Option::None }
    }

    /// Whether the slot currently holds a pending block.
    pub fn is_filled(&self) -> (r: bool)
        ensures
            r == (self.value is Some),
    {
        match &self.value {
            Option::Some(_) => true,
            Option::None => false,
        }
    }

    /// Read-only access to the cached pending block.
    pub fn pending_block(&self) -> (r: &Option<PendingBlock>)
        ensures
            r == &self.value,
    {
        &self.value
    }

    /// Installs a freshly computed pending block, replacing whatever the
    /// slot held.
    pub fn install(&mut self, pb: PendingBlock)
        ensures
            final(self).value == Option::Some(pb),
    {
        self.value = Option::Some(pb);
    }

    /// Moves the cached pending block out, leaving the slot empty.
    pub fn take_value(&mut self) -> (r: Option<PendingBlock>)
        ensures
            r == old(self).value,
            final(self).value is None,
    {
        let mut out: Option<PendingBlock> = Option::None;
        std::mem::swap(&mut self.value, &mut out);
        out
    }
}

} // verus!
