//! The keyboard surface the frame update reads: which keys are currently
//! held, and which were newly pressed this frame. The engine produces one
//! snapshot per frame; the update procedure only reads it.

use vstd::prelude::*;

verus! {

/// The keys the frame update queries. Every other key is ignored.
#[derive(Clone, Copy, PartialEq, Eq, Structural, Debug)]
pub enum Key {
    S,
    A,
    D,
    W,
    E,
    Q,
    O,
    P,
    LShift,
    L,
    K,
    M,
    Escape,
}

/// A read-only per-frame view of the keyboard: the set of currently-held
/// keys and the set of keys newly pressed this frame (rising edges).
pub struct InputSnapshot {
    pub keys_down: Vec<Key>,
    pub keys_pressed: Vec<Key>,
}

impl InputSnapshot {
    /// The set of keys currently held.
    pub open spec fn down(self) -> Set<Key> {
        Set::new(|k: Key| self.keys_down@.contains(k))
    }

    /// The set of keys newly pressed this frame.
    pub open spec fn pressed(self) -> Set<Key> {
        Set::new(|k: Key| self.keys_pressed@.contains(k))
    }

    /// A snapshot with no key held and none pressed.
    pub fn empty() -> (s: InputSnapshot)
        ensures
            s.down() == Set::<Key>::empty(),
            s.pressed() == Set::<Key>::empty(),
    {
        let s = InputSnapshot { keys_down: Vec::new(), keys_pressed: Vec::new() };
        proof {
            assert(s.down() =~= Set::<Key>::empty());
            assert(s.pressed() =~= Set::<Key>::empty());
        }
        s
    }

    /// Whether `k` is currently held.
    pub fn is_down(&self, k: Key) -> (r: bool)
        ensures
            r == self.down().contains(k),
    {
        let mut i: usize = 0;
        while i < self.keys_down.len()
            invariant
                i <= self.keys_down.len(),
                forall|j: int| 0 <= j < i ==> self.keys_down@[j] != k,
            decreases self.keys_down.len() - i,
        {
            if self.keys_down[i] == k {
                return true;
            }
            i = i + 1;
        }
        false
    }

    /// Whether `k` was newly pressed this frame.
    pub fn is_pressed(&self, k: Key) -> (r: bool)
        ensures
            r == self.pressed().contains(k),
    {
        let mut i: usize = 0;
        while i < self.keys_pressed.len()
            invariant
                i <= self.keys_pressed.len(),
                forall|j: int| 0 <= j < i ==> self.keys_pressed@[j] != k,
            decreases self.keys_pressed.len() - i,
        {
            if self.keys_pressed[i] == k {
                return true;
            }
            i = i + 1;
        }
        false
    }
}

} // verus!
