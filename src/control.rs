use vstd::prelude::*;

use crate::button::{release_edge, Button};
use crate::flash::{tick_spec, Flasher};
use crate::led::{write_for, Led};
use crate::mode::{
    color_index, lighting_index, threshold_of, Color, Lighting, COLOR_COUNT, LIGHTING_COUNT,
};

verus! {

pub const RED_PIN: u8 = 14;

pub const GREEN_PIN: u8 = 15;

pub const BLUE_PIN: u8 = 18;

pub const WHITE_PIN: u8 = 23;

/// The button that cycles the color setting.
pub const COLOR_BUTTON_PIN: u8 = 2;

/// The button that cycles the lighting setting.
pub const LIGHTING_BUTTON_PIN: u8 = 3;

/// Wanted level of each of the four output lines.
#[derive(Clone, Copy, Debug, PartialEq, Eq, Structural)]
pub struct Levels {
    pub red: bool,
    pub green: bool,
    pub blue: bool,
    pub white: bool,
}

/// Level to write to each output line in one step, `None` where the line
/// keeps its level.
#[derive(Clone, Copy, Debug, PartialEq, Eq)]
pub struct Writes {
    pub red: Option<bool>,
    pub green: Option<bool>,
    pub blue: Option<bool>,
    pub white: Option<bool>,
}

/// The selected line (or all of them, for `All`) follows the flash phase;
/// the others are dark.
pub open spec fn levels_of(color: Color, phase: bool) -> Levels {
    Levels {
        red: phase && (color == Color::Red || color == Color::All),
        green: phase && (color == Color::Green || color == Color::All),
        blue: phase && (color == Color::Blue || color == Color::All),
        white: phase && (color == Color::White || color == Color::All),
    }
}

/// One poll of a button that drives a selector of `range` positions: the
/// latch takes the new reading (`line_low`: active) and the position
/// advances, wrapping, when a press has just been released.
pub open spec fn selector_step(pressed: bool, index: nat, line_low: bool, range: nat) -> (bool, nat) {
    (line_low, if release_edge(pressed, !line_low) { (index + 1) % range } else { index })
}

impl Levels {
    /// The levels for a color setting in a flash phase.
    pub fn of(color: Color, phase: bool) -> (r: Levels)
        ensures
            r == levels_of(color, phase),
    {
        match color {
            Color::Red => Levels { red: phase, green: false, blue: false, white: false },
            Color::Green => Levels { red: false, green: phase, blue: false, white: false },
            Color::Blue => Levels { red: false, green: false, blue: phase, white: false },
            Color::White => Levels { red: false, green: false, blue: false, white: phase },
            Color::All => Levels { red: phase, green: phase, blue: phase, white: phase },
        }
    }
}

/// The whole light controller: two buttons, four output lines, the two
/// selectors and the flash timer.
#[derive(Clone, Copy, Debug, PartialEq, Eq, Structural)]
pub struct Controller {
    pub lighting_button: Button,
    pub color_button: Button,
    pub red: Led,
    pub green: Led,
    pub blue: Led,
    pub white: Led,
    pub lighting: Lighting,
    pub color: Color,
    pub flasher: Flasher,
}

impl Controller {
    /// The controller at start-up, at time `now_ms`: lighting off, all
    /// colors selected, every line low and no button seen pressed.
    pub fn new(now_ms: u64) -> (r: Controller)
        ensures
            r.lighting == Lighting::Off,
            r.color == Color::All,
            r.flasher == Flasher::new_spec(now_ms),
            r.lighting_button == (Button { pin_number: LIGHTING_BUTTON_PIN, pressed: false }),
            r.color_button == (Button { pin_number: COLOR_BUTTON_PIN, pressed: false }),
            r.red == (Led { pin_number: RED_PIN, is_on: false }),
            r.green == (Led { pin_number: GREEN_PIN, is_on: false }),
            r.blue == (Led { pin_number: BLUE_PIN, is_on: false }),
            r.white == (Led { pin_number: WHITE_PIN, is_on: false }),
    {
        Controller {
            lighting_button: Button::new(LIGHTING_BUTTON_PIN),
            color_button: Button::new(COLOR_BUTTON_PIN),
            red: Led::new(RED_PIN),
            green: Led::new(GREEN_PIN),
            blue: Led::new(BLUE_PIN),
            white: Led::new(WHITE_PIN),
            lighting: Lighting::Off,
            color: Color::All,
            flasher: Flasher::new(now_ms),
        }
    }

    /// One pass of the control loop at time `now_ms`, given what the two
    /// button lines read (`true`: held down). Advances each selector on a
    /// completed press-and-release, latches the readings and, unless the
    /// lighting is off, runs the flash timer and drives the output lines to
    /// the selected color. Returns what must be written to the hardware.
    pub fn step(&mut self, lighting_low: bool, color_low: bool, now_ms: u64) -> (r: Writes)
        ensures
            (final(self).lighting_button.pressed, lighting_index(final(self).lighting))
                == selector_step(
                old(self).lighting_button.pressed,
                lighting_index(old(self).lighting),
                lighting_low,
                LIGHTING_COUNT as nat,
            ),
            (final(self).color_button.pressed, color_index(final(self).color)) == selector_step(
                old(self).color_button.pressed,
                color_index(old(self).color),
                color_low,
                COLOR_COUNT as nat,
            ),
            final(self).lighting_button.pin_number == old(self).lighting_button.pin_number,
            final(self).color_button.pin_number == old(self).color_button.pin_number,
            final(self).red.pin_number == old(self).red.pin_number,
            final(self).green.pin_number == old(self).green.pin_number,
            final(self).blue.pin_number == old(self).blue.pin_number,
            final(self).white.pin_number == old(self).white.pin_number,
            final(self).lighting == Lighting::Off ==> {
                &&& final(self).flasher == old(self).flasher
                &&& final(self).red == old(self).red
                &&& final(self).green == old(self).green
                &&& final(self).blue == old(self).blue
                &&& final(self).white == old(self).white
                &&& r == (Writes { red: None, green: None, blue: None, white: None })
            },
            final(self).lighting != Lighting::Off ==> {
                let lv = levels_of(final(self).color, final(self).flasher.phase);
                &&& final(self).flasher == tick_spec(
                    old(self).flasher,
                    now_ms,
                    threshold_of(final(self).lighting),
                )
                &&& final(self).red.is_on == lv.red
                &&& final(self).green.is_on == lv.green
                &&& final(self).blue.is_on == lv.blue
                &&& final(self).white.is_on == lv.white
                &&& r == (Writes {
                    red: write_for(old(self).red.is_on, lv.red),
                    green: write_for(old(self).green.is_on, lv.green),
                    blue: write_for(old(self).blue.is_on, lv.blue),
                    white: write_for(old(self).white.is_on, lv.white),
                })
            },
    {
        if self.lighting_button.is_pressed_up(!lighting_low) {
            self.lighting = self.lighting.next();
        }
        if self.color_button.is_pressed_up(!color_low) {
            self.color = self.color.next();
        }
        self.lighting_button.update(lighting_low);
        self.color_button.update(color_low);
        if self.lighting != Lighting::Off {
            self.flasher.tick(now_ms, self.lighting.threshold_ms());
            let lv = Levels::of(self.color, self.flasher.phase);
            Writes {
                red: self.red.set(lv.red),
                green: self.green.set(lv.green),
                blue: self.blue.set(lv.blue),
                white: self.white.set(lv.white),
            }
        } else {
            Writes { red: None, green: None, blue: None, white: None }
        }
    }
}

} // verus!
