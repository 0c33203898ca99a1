//! Edge-triggered keyboard state.
//!
//! The window layer reports raw key transitions through [`InputManager::update`];
//! the simulation asks either "is this key held" ([`InputManager::key_down`])
//! or "did it just transition" ([`InputManager::key_went_up`],
//! [`InputManager::key_went_down`]). Transition queries consume the edge:
//! asking twice reports the edge once.

use vstd::prelude::*;

verus! {

/// Number of logical key slots tracked.
pub const KEY_COUNT: usize = 163;

pub const KEY_UP: usize = 0;

pub const KEY_DOWN: usize = 1;

pub const KEY_LEFT: usize = 2;

pub const KEY_RIGHT: usize = 3;

pub const KEY_RETURN: usize = 4;

pub const KEY_ESCAPE: usize = 5;

/// Current held state per key, plus a latched "changed since last query"
/// flag per key that transition queries consume.
pub struct InputManager {
    pub keys: Vec<bool>,
    pub prev_keys: Vec<bool>,
}

impl InputManager {
    /// Both tables cover every key slot.
    pub open spec fn wf(&self) -> bool {
        &&& self.keys@.len() == KEY_COUNT
        &&& self.prev_keys@.len() == KEY_COUNT
    }

    /// A fresh manager: no key held, no pending transition.
    pub fn new() -> (m: InputManager)
        ensures
            m.wf(),
            forall|k: int| 0 <= k < KEY_COUNT ==> !m.keys@[k],
            forall|k: int| 0 <= k < KEY_COUNT ==> !m.prev_keys@[k],
    {
        InputManager { keys: vec![false; 163], prev_keys: vec![false; 163] }
    }

    /// Reads and consumes the latched transition flag of `key`.
    fn key_changed(&mut self, key: usize) -> (r: bool)
        requires
            old(self).wf(),
            key < KEY_COUNT,
        ensures
            final(self).wf(),
            r == old(self).prev_keys@[key as int],
            final(self).prev_keys@ == old(self).prev_keys@.update(key as int, false),
            final(self).keys == old(self).keys,
    {
        let temp = self.prev_keys[key];
        self.prev_keys[key] = false;
        temp
    }

    /// True iff `key` is currently held.
    pub fn key_down(&self, key: usize) -> (r: bool)
        requires
            self.wf(),
            key < KEY_COUNT,
        ensures
            r == self.keys@[key as int],
    {
        self.keys[key]
    }

    /// True iff `key` is held and its transition flag was pending; the flag
    /// is consumed only when the key is held.
    pub fn key_went_down(&mut self, key: usize) -> (r: bool)
        requires
            old(self).wf(),
            key < KEY_COUNT,
        ensures
            final(self).wf(),
            r == (old(self).keys@[key as int] && old(self).prev_keys@[key as int]),
            final(self).keys == old(self).keys,
            final(self).prev_keys@ == if old(self).keys@[key as int] {
                old(self).prev_keys@.update(key as int, false)
            } else {
                old(self).prev_keys@
            },
    {
        self.keys[key] && self.key_changed(key)
    }

    /// True iff `key` is released and its transition flag was pending; the
    /// flag is consumed only when the key is released.
    pub fn key_went_up(&mut self, key: usize) -> (r: bool)
        requires
            old(self).wf(),
            key < KEY_COUNT,
        ensures
            final(self).wf(),
            r == (!old(self).keys@[key as int] && old(self).prev_keys@[key as int]),
            final(self).keys == old(self).keys,
            final(self).prev_keys@ == if !old(self).keys@[key as int] {
                old(self).prev_keys@.update(key as int, false)
            } else {
                old(self).prev_keys@
            },
    {
        !self.keys[key] && self.key_changed(key)
    }

    /// Records a raw key event from the window layer: `pressed` is the new
    /// held state; a release latches the transition flag.
    pub fn update(&mut self, pressed: bool, key: usize)
        requires
            old(self).wf(),
            key < KEY_COUNT,
        ensures
            final(self).wf(),
            final(self).keys@ == old(self).keys@.update(key as int, pressed),
            final(self).prev_keys@ == old(self).prev_keys@.update(key as int, !pressed),
    {
        if pressed {
            if !self.keys[key] {
                self.keys[key] = true;
            }
        } else {
            self.keys[key] = false;
        }
        self.prev_keys[key] = !pressed;
    }
}

} // verus!
