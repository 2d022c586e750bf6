//! Decoded key events, as the state machine consumes them.

use vstd::prelude::*;

verus! {

/// Modifier keys held while a key was pressed.
#[derive(Clone, Copy, PartialEq, Eq, Structural)]
pub struct KeyModifiers {
    pub shift: bool,
    pub control: bool,
    pub alt: bool,
}

impl KeyModifiers {
    /// True when no modifier key is held.
    pub open spec fn spec_plain(&self) -> bool {
        !self.shift && !self.control && !self.alt
    }

    /// A modifier set with nothing held.
    pub fn plain() -> (r: Self)
        ensures
            r.spec_plain(),
    {
        KeyModifiers { shift: false, control: false, alt: false }
    }

    /// Reports whether no modifier key is held.
    pub fn is_plain(&self) -> (r: bool)
        ensures
            r == self.spec_plain(),
    {
        !self.shift && !self.control && !self.alt
    }
}

/// A decoded key event. Terminal input is mapped into this closed set before
/// it reaches the state machine.
#[derive(Clone, Copy)]
pub enum Key {
    Up(KeyModifiers),
    Down(KeyModifiers),
    Char(char, KeyModifiers),
    Submit,
    Cancel,
}

} // verus!
