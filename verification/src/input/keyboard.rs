//! Keyboard state: the set of keys held down, and the most recent presses.

use vstd::prelude::*;

use std::collections::HashSet;

verus! {

broadcast use vstd::std_specs::hash::group_hash_axioms;

/// A key's code.  The windowing layer maps its own key enumeration onto
/// these plain numbers before they reach the tracker.
pub type KeyCode = u32;

/// The keyboard's tracked state: which keys are held down, the key pressed
/// before the current one, and the current one.
pub struct KeyboardContext {
    pressed_keys: HashSet<KeyCode>,
    last_pressed: Option<KeyCode>,
    pub current_pressed: Option<KeyCode>,
}

impl KeyboardContext {
    /// The set of keys currently held down.
    pub closed spec fn spec_pressed(&self) -> Set<KeyCode> {
        self.pressed_keys@
    }

    /// The key pressed before the current one.
    pub closed spec fn spec_last_pressed(&self) -> Option<KeyCode> {
        self.last_pressed
    }

    /// The key currently pressed, if any.
    pub closed spec fn spec_current_pressed(&self) -> Option<KeyCode> {
        self.current_pressed
    }

    /// A tracker with no keys down and no press history.
    pub fn new() -> (k: KeyboardContext)
        ensures
            k.spec_pressed() == Set::<KeyCode>::empty(),
            k.spec_last_pressed() is None,
            k.spec_current_pressed() is None,
    {
        KeyboardContext {
            pressed_keys: HashSet::with_capacity(128),
            last_pressed: None,
            current_pressed: None,
        }
    }

    /// Record a key transition.  A press adds the key to the held set and
    /// shifts the current press into the history; a release removes the
    /// key and clears the current press, leaving the history alone.
    pub fn set_key(&mut self, key: KeyCode, pressed: bool)
        ensures
            pressed ==> final(self).spec_pressed() == old(self).spec_pressed().insert(key)
                && final(self).spec_last_pressed() == old(self).spec_current_pressed()
                && final(self).spec_current_pressed() == Some(key),
            !pressed ==> final(self).spec_pressed() == old(self).spec_pressed().remove(key)
                && final(self).spec_current_pressed() is None
                && final(self).spec_last_pressed() == old(self).spec_last_pressed(),
    {
        if pressed {
            let _ = self.pressed_keys.insert(key);
            self.last_pressed = self.current_pressed;
            self.current_pressed = Some(key);
        } else {
            let _ = self.pressed_keys.remove(&key);
            self.current_pressed = None;
        }
    }
}

} // verus!
