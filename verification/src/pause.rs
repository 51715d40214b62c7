//! Edge-triggered pause switch: holding the pause key toggles exactly once.

use vstd::prelude::*;

verus! {

/// Remembers whether the pause key was down on the previous frame, so a
/// held key produces a single toggle on its first frame.
pub struct Pause {
    pub pre_pause_button: bool,
}

impl Pause {
    pub fn new() -> (p: Self)
        ensures
            p.pre_pause_button == false,
    {
        Pause { pre_pause_button: false }
    }

    /// True exactly on the rising edge of the pause input: the key is down
    /// now and was not down on the previous frame.
    pub fn toggle_pause(&mut self, pause_button: bool) -> (r: bool)
        ensures
            r == (!old(self).pre_pause_button && pause_button),
            final(self).pre_pause_button == pause_button,
    {
        if !self.pre_pause_button && pause_button {
            self.pre_pause_button = true;
            return true;
        }
        if self.pre_pause_button && !pause_button {
            self.pre_pause_button = false;
        }
        false
    }
}

} // verus!
