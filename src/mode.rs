use vstd::prelude::*;

verus! {

/// Number of blink-rate settings.
pub const LIGHTING_COUNT: usize = 4;

/// Number of color settings.
pub const COLOR_COUNT: usize = 5;

/// Blink-rate selector: `Off` keeps the outputs untouched, the others flash
/// with a half-period of 100 ms times their position.
#[derive(Clone, Copy, Debug, PartialEq, Eq, Structural)]
pub enum Lighting {
    Off,
    One,
    Two,
    Three,
}

/// Which output lines flash.
#[derive(Clone, Copy, Debug, PartialEq, Eq, Structural)]
pub enum Color {
    Red,
    Green,
    Blue,
    White,
    All,
}

/// Position of a lighting setting in its cycle.
pub open spec fn lighting_index(l: Lighting) -> nat {
    match l {
        Lighting::Off => 0,
        Lighting::One => 1,
        Lighting::Two => 2,
        Lighting::Three => 3,
    }
}

/// Position of a color setting in its cycle.
pub open spec fn color_index(c: Color) -> nat {
    match c {
        Color::Red => 0,
        Color::Green => 1,
        Color::Blue => 2,
        Color::White => 3,
        Color::All => 4,
    }
}

/// Flash half-period of a lighting setting, in milliseconds.
pub open spec fn threshold_of(l: Lighting) -> nat {
    100 * lighting_index(l)
}

impl Lighting {
    /// Position of this setting in its cycle.
    pub fn index(self) -> (r: usize)
        ensures
            r == lighting_index(self),
            r < LIGHTING_COUNT,
    {
        match self {
            Lighting::Off => 0,
            Lighting::One => 1,
            Lighting::Two => 2,
            Lighting::Three => 3,
        }
    }

    /// The setting at position `n`, if there is one.
    pub fn from_index(n: usize) -> (r: Option<Lighting>)
        ensures
            n < LIGHTING_COUNT <==> r is Some,
            r matches Some(l) ==> lighting_index(l) == n,
    {
        match n {
            0 => Some(Lighting::Off),
            1 => Some(Lighting::One),
            2 => Some(Lighting::Two),
            3 => Some(Lighting::Three),
            _ => None,
        }
    }

    /// The setting that follows this one, wrapping after the last.
    pub fn next(self) -> (r: Lighting)
        ensures
            lighting_index(r) == (lighting_index(self) + 1) % (LIGHTING_COUNT as nat),
    {
        match Lighting::from_index((self.index() + 1) % LIGHTING_COUNT) {
            Some(l) => l,
            None => Lighting::Off,
        }
    }

    /// Flash half-period in milliseconds.
    pub fn threshold_ms(self) -> (r: u64)
        ensures
            r == threshold_of(self),
    {
        100 * (self.index() as u64)
    }
}

impl Color {
    /// Position of this setting in its cycle.
    pub fn index(self) -> (r: usize)
        ensures
            r == color_index(self),
            r < COLOR_COUNT,
    {
        match self {
            Color::Red => 0,
            Color::Green => 1,
            Color::Blue => 2,
            Color::White => 3,
            Color::All => 4,
        }
    }

    /// The setting at position `n`, if there is one.
    pub fn from_index(n: usize) -> (r: Option<Color>)
        ensures
            n < COLOR_COUNT <==> r is Some,
            r matches Some(c) ==> color_index(c) == n,
    {
        match n {
            0 => Some(Color::Red),
            1 => Some(Color::Green),
            2 => Some(Color::Blue),
            3 => Some(Color::White),
            4 => Some(Color::All),
            _ => None,
        }
    }

    /// The setting that follows this one, wrapping after the last.
    pub fn next(self) -> (r: Color)
        ensures
            color_index(r) == (color_index(self) + 1) % (COLOR_COUNT as nat),
    {
        match Color::from_index((self.index() + 1) % COLOR_COUNT) {
            Some(c) => c,
            None => Color::All,
        }
    }
}

} // verus!
