use vstd::prelude::*;

verus! {

/// The level to drive when `value` is asked of a line last driven at
/// `is_on`: none when the two agree.
pub open spec fn write_for(is_on: bool, value: bool) -> Option<bool> {
    if is_on != value {
        Some(value)
    } else {
        None
    }
}

/// An output line that remembers the level it was last driven at, so that
/// the hardware is written only when the level changes.
#[derive(Clone, Copy, Debug, PartialEq, Eq, Structural)]
pub struct Led {
    pub pin_number: u8,
    pub is_on: bool,
}

impl Led {
    /// A line on the given pin, driven low when it is set up.
    pub fn new(pin_number: u8) -> (r: Led)
        ensures
            r.pin_number == pin_number,
            !r.is_on,
    {
        Led { pin_number, is_on: false }
    }

    /// Ask for the line to be at `value`. Returns the level that must be
    /// written to the hardware, or `None` when it is already there.
    pub fn set(&mut self, value: bool) -> (r: Option<bool>)
        ensures
            r == write_for(old(self).is_on, value),
            final(self).is_on == value,
            final(self).pin_number == old(self).pin_number,
    {
        if self.is_on != value {
            self.is_on = value;
            Some(value)
        } else {
            None
        }
    }
}

} // verus!
