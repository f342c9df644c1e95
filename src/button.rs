use vstd::prelude::*;

verus! {

/// True when a button whose latch holds `pressed` has just been let go: the
/// latch saw the line active and the line now reads inactive (high).
pub open spec fn release_edge(pressed: bool, line_high: bool) -> bool {
    pressed && line_high
}

/// A pulled-up input line read as a button: low means held down. The latch
/// keeps what the line read at the last `update`.
#[derive(Clone, Copy, Debug, PartialEq, Eq, Structural)]
pub struct Button {
    pub pin_number: u8,
    pub pressed: bool,
}

impl Button {
    /// A button on the given line, not yet seen pressed.
    pub fn new(pin_number: u8) -> (r: Button)
        ensures
            r.pin_number == pin_number,
            !r.pressed,
    {
        Button { pin_number, pressed: false }
    }

    /// The latched state: whether the line read active at the last update.
    pub fn is_pressed(&self) -> (r: bool)
        ensures
            r == self.pressed,
    {
        self.pressed
    }

    /// Whether a full press-and-release has just completed, given what the
    /// line reads now (`line_high`: inactive).
    pub fn is_pressed_up(&self, line_high: bool) -> (r: bool)
        ensures
            r == release_edge(self.pressed, line_high),
    {
        self.pressed && line_high
    }

    /// Latch a new reading of the line (`line_low`: active).
    pub fn update(&mut self, line_low: bool)
        ensures
            final(self).pressed == line_low,
            final(self).pin_number == old(self).pin_number,
    {
        self.pressed = line_low;
    }
}

} // verus!
