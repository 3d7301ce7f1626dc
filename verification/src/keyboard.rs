//! Which keys are held, and which of them were already reported as pressed.
//!
//! Keys are identified by their numeric code. The set of held keys follows
//! the press and release events of the window; the edge latch is touched only
//! by the question whether a key was just pressed. The engine keeps one
//! `InputState`; behaviours read the held keys and share the latch.

use vstd::prelude::*;
use crate::latch::latch_step;
use crate::latch::EdgeLatch;
use crate::tables::IdSet;

verus! {

pub struct InputState {
    pub(crate) held: IdSet,
    pub(crate) edge_locks: EdgeLatch,
}

impl InputState {
    /// Codes of the keys that are held.
    pub open(crate) spec fn held(&self) -> Set<u64> {
        self.held@
    }

    /// Codes of the held keys that were already reported as pressed.
    pub open(crate) spec fn edge_locks(&self) -> Set<u64> {
        self.edge_locks@
    }

    pub fn new() -> (input: InputState)
        ensures
            input.held() == Set::<u64>::empty(),
            input.edge_locks() == Set::<u64>::empty(),
    {
        InputState { held: IdSet::new(), edge_locks: EdgeLatch::new() }
    }

    /// A key went down.
    pub fn press(&mut self, key: u32)
        ensures
            final(self).held() == old(self).held().insert(key as u64),
            final(self).edge_locks() == old(self).edge_locks(),
    {
        self.held.insert(key as u64);
    }

    /// A key came up.
    pub fn release(&mut self, key: u32)
        ensures
            final(self).held() == old(self).held().remove(key as u64),
            final(self).edge_locks() == old(self).edge_locks(),
    {
        self.held.remove(key as u64);
    }

    pub fn is_key_down(&self, key: u32) -> (down: bool)
        ensures
            down == self.held().contains(key as u64),
    {
        self.held.contains(key as u64)
    }

    pub fn is_key_up(&self, key: u32) -> (up: bool)
        ensures
            up == !self.held().contains(key as u64),
    {
        !self.held.contains(key as u64)
    }

    /// Whether the key went down since this question was last asked of it:
    /// `true` at the first call that finds the key held, `false` while it
    /// stays held, and `true` again only after a call found it released.
    pub fn is_key_pressed(&mut self, key: u32) -> (pressed: bool)
        ensures
            final(self).held() == old(self).held(),
            (final(self).edge_locks(), pressed) == latch_step(
                old(self).edge_locks(),
                key as u64,
                old(self).held().contains(key as u64),
            ),
    {
        let down = self.held.contains(key as u64);
        self.edge_locks.rising_edge(key as u64, down)
    }

    pub fn duplicate(&self) -> (copy: InputState)
        ensures
            copy.held() == self.held(),
            copy.edge_locks() == self.edge_locks(),
    {
        InputState { held: self.held.duplicate(), edge_locks: self.edge_locks.duplicate() }
    }
}

} // verus!
