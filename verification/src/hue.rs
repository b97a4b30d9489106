//! The fixed seven-hue palette of the Spectrum variant, and the distance of
//! a hue to the reference hue (Green) in that ordering.

use vstd::prelude::*;

verus! {

/// One of the seven palette hues, in the fixed game ordering
/// Violet, Indigo, Blue, Green, Yellow, Orange, Red.
#[derive(Clone, Copy, Debug, PartialEq, Eq, Structural)]
pub enum Hue {
    Violet,
    Indigo,
    Blue,
    Green,
    Yellow,
    Orange,
    Red,
}

/// The hue every distance is measured against.
pub open spec fn reference_hue() -> Hue {
    Hue::Green
}

impl Hue {
    /// Position of this hue in the fixed palette ordering.
    pub open spec fn spec_index(self) -> int {
        match self {
            Hue::Violet => 0,
            Hue::Indigo => 1,
            Hue::Blue => 2,
            Hue::Green => 3,
            Hue::Yellow => 4,
            Hue::Orange => 5,
            Hue::Red => 6,
        }
    }

    /// Absolute difference between this hue's palette index and the
    /// reference hue's.
    pub open spec fn spec_distance(self) -> int {
        let d = self.spec_index() - reference_hue().spec_index();
        if d < 0 {
            -d
        } else {
            d
        }
    }

    /// The hue's palette name.
    pub open spec fn spec_name(self) -> Seq<char> {
        match self {
            Hue::Violet => "Violet"@,
            Hue::Indigo => "Indigo"@,
            Hue::Blue => "Blue"@,
            Hue::Green => "Green"@,
            Hue::Yellow => "Yellow"@,
            Hue::Orange => "Orange"@,
            Hue::Red => "Red"@,
        }
    }

    /// Position of this hue in the fixed palette ordering.
    pub fn index(self) -> (i: usize)
        ensures
            i == self.spec_index(),
    {
        match self {
            Hue::Violet => 0,
            Hue::Indigo => 1,
            Hue::Blue => 2,
            Hue::Green => 3,
            Hue::Yellow => 4,
            Hue::Orange => 5,
            Hue::Red => 6,
        }
    }

    /// Absolute difference between this hue's palette index and the
    /// reference hue's.
    pub fn distance_to_reference(self) -> (d: usize)
        ensures
            d == self.spec_distance(),
    {
        let i = self.index();
        if i >= 3 {
            i - 3
        } else {
            3 - i
        }
    }

    /// The hue's palette name.
    pub fn name(self) -> (s: &'static str)
        ensures
            s@ == self.spec_name(),
    {
        match self {
            Hue::Violet => "Violet",
            Hue::Indigo => "Indigo",
            Hue::Blue => "Blue",
            Hue::Green => "Green",
            Hue::Yellow => "Yellow",
            Hue::Orange => "Orange",
            Hue::Red => "Red",
        }
    }
}

/// The hue at a palette position; inverse of `Hue::index`.
pub fn hue_of_index(i: usize) -> (h: Hue)
    requires
        i < 7,
    ensures
        h.spec_index() == i,
{
    if i == 0 {
        Hue::Violet
    } else if i == 1 {
        Hue::Indigo
    } else if i == 2 {
        Hue::Blue
    } else if i == 3 {
        Hue::Green
    } else if i == 4 {
        Hue::Yellow
    } else if i == 5 {
        Hue::Orange
    } else {
        Hue::Red
    }
}

} // verus!
