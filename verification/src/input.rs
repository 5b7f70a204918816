//! Keyboard input state tracking.
//!
//! Keys are identified by opaque numeric codes.  The tracker keeps the set
//! of currently held keys, plus the keys pressed or released since the
//! last per-tick [`Keyboard::update`].

use vstd::prelude::*;
use std::collections::HashSet;

verus! {

broadcast use vstd::std_specs::hash::group_hash_axioms;

/// Per-key state: what is held now, and what changed since the last tick.
pub struct Keyboard {
    pub curr_pressed: HashSet<u64>,
    pub just_pressed: HashSet<u64>,
    pub just_released: HashSet<u64>,
}

impl Keyboard {
    /// A tracker with no key held and nothing just changed.
    pub fn new() -> (k: Keyboard)
        ensures
            k.curr_pressed@ == Set::<u64>::empty(),
            k.just_pressed@ == Set::<u64>::empty(),
            k.just_released@ == Set::<u64>::empty(),
    {
        Keyboard {
            curr_pressed: HashSet::new(),
            just_pressed: HashSet::new(),
            just_released: HashSet::new(),
        }
    }

    /// Begin a new tick: the just-released set empties; the held set and
    /// the just-pressed set carry over unchanged.
    pub fn update(&mut self)
        ensures
            final(self).curr_pressed@ == old(self).curr_pressed@,
            final(self).just_pressed@ == old(self).just_pressed@,
            final(self).just_released@ == Set::<u64>::empty(),
    {
        self.just_released.clear();
    }

    /// Track one key event.  A press adds the key to the held and
    /// just-pressed sets; a release removes it from the held set and adds
    /// it to the just-released set.
    pub fn process_event(&mut self, key: u64, pressed: bool)
        ensures
            pressed ==> {
                &&& final(self).curr_pressed@ == old(self).curr_pressed@.insert(key)
                &&& final(self).just_pressed@ == old(self).just_pressed@.insert(key)
                &&& final(self).just_released@ == old(self).just_released@
            },
            !pressed ==> {
                &&& final(self).curr_pressed@ == old(self).curr_pressed@.remove(key)
                &&& final(self).just_pressed@ == old(self).just_pressed@
                &&& final(self).just_released@ == old(self).just_released@.insert(key)
            },
    {
        if pressed {
            self.curr_pressed.insert(key);
            self.just_pressed.insert(key);
        } else {
            self.curr_pressed.remove(&key);
            self.just_released.insert(key);
        }
    }

    /// Whether the key is currently held.
    pub fn is_pressed(&self, key: u64) -> (b: bool)
        ensures
            b == self.curr_pressed@.contains(key),
    {
        self.curr_pressed.contains(&key)
    }

    /// Whether the key was pressed since the last tick.
    pub fn is_just_pressed(&self, key: u64) -> (b: bool)
        ensures
            b == self.just_pressed@.contains(key),
    {
        self.just_pressed.contains(&key)
    }

    /// Whether the key was released since the last tick.
    pub fn is_just_released(&self, key: u64) -> (b: bool)
        ensures
            b == self.just_released@.contains(key),
    {
        self.just_released.contains(&key)
    }
}

/// All input devices; for now, the keyboard.
pub struct Input {
    pub keyboard: Keyboard,
}

impl Input {
    /// Input state with nothing pressed.
    pub fn new() -> (i: Input)
        ensures
            i.keyboard.curr_pressed@ == Set::<u64>::empty(),
            i.keyboard.just_pressed@ == Set::<u64>::empty(),
            i.keyboard.just_released@ == Set::<u64>::empty(),
    {
        Input { keyboard: Keyboard::new() }
    }

    /// Begin a new tick on every device.
    pub fn update(&mut self)
        ensures
            final(self).keyboard.curr_pressed@ == old(self).keyboard.curr_pressed@,
            final(self).keyboard.just_pressed@ == old(self).keyboard.just_pressed@,
            final(self).keyboard.just_released@ == Set::<u64>::empty(),
    {
        self.keyboard.update();
    }
}

} // verus!
