//! Height bands and the colour each one is drawn in.

use crate::fixed::UNIT;
use vstd::prelude::*;

verus! {

/// The height at and below which terrain lies under water: one half.
pub const SEA_LEVEL: i64 = 500_000;

/// The greatest height that still counts as shore.
pub const SHORE_LIMIT: i64 = 550_000;

/// The greatest height that still counts as lowland.
pub const LOWLAND_LIMIT: i64 = 800_000;

/// The greatest height that still counts as highland.
pub const HIGHLAND_LIMIT: i64 = 900_000;

/// An opaque colour, one byte per channel.
#[derive(Clone, Copy, Debug, PartialEq, Eq, Structural)]
pub struct Color {
    pub r: u8,
    pub g: u8,
    pub b: u8,
}

/// The band of terrain that a height falls into, from the lowest up.
#[derive(Clone, Copy, Debug, PartialEq, Eq, Structural)]
pub enum Biome {
    Water,
    Shore,
    Lowland,
    Highland,
    Peak,
}

impl Biome {
    /// The band of a fixed-point height. Water lies strictly below sea level;
    /// every other limit belongs to the band beneath it.
    pub open spec fn of(height: int) -> Biome {
        if height < SEA_LEVEL {
            Biome::Water
        } else if height <= SHORE_LIMIT {
            Biome::Shore
        } else if height <= LOWLAND_LIMIT {
            Biome::Lowland
        } else if height <= HIGHLAND_LIMIT {
            Biome::Highland
        } else {
            Biome::Peak
        }
    }

    /// The colour a band is drawn in.
    pub open spec fn tint(self) -> Color {
        match self {
            Biome::Water => Color { r: 5, g: 67, b: 166 },
            Biome::Shore => Color { r: 174, g: 184, b: 83 },
            Biome::Lowland => Color { r: 26, g: 145, b: 38 },
            Biome::Highland => Color { r: 74, g: 43, b: 27 },
            Biome::Peak => Color { r: 255, g: 255, b: 255 },
        }
    }

    /// Sorts a fixed-point height into its band.
    pub fn classify(height: i64) -> (band: Biome)
        ensures
            band == Biome::of(height as int),
    {
        if height < SEA_LEVEL {
            Biome::Water
        } else if height <= SHORE_LIMIT {
            Biome::Shore
        } else if height <= LOWLAND_LIMIT {
            Biome::Lowland
        } else if height <= HIGHLAND_LIMIT {
            Biome::Highland
        } else {
            Biome::Peak
        }
    }

    /// The colour this band is drawn in.
    pub fn color(self) -> (c: Color)
        ensures
            c == self.tint(),
    {
        match self {
            Biome::Water => Color { r: 5, g: 67, b: 166 },
            Biome::Shore => Color { r: 174, g: 184, b: 83 },
            Biome::Lowland => Color { r: 26, g: 145, b: 38 },
            Biome::Highland => Color { r: 74, g: 43, b: 27 },
            Biome::Peak => Color { r: 255, g: 255, b: 255 },
        }
    }
}

/// The height at which a point of the given height is drawn: everything at
/// or below sea level is flattened onto the sea's surface.
pub open spec fn shown_height(height: int) -> int {
    if height <= SEA_LEVEL {
        SEA_LEVEL as int
    } else {
        height
    }
}

/// Flattens a height onto the sea's surface where it lies at or below it.
pub fn displayed_height(height: i64) -> (shown: i64)
    ensures
        shown == shown_height(height as int),
{
    if height <= SEA_LEVEL {
        SEA_LEVEL
    } else {
        height
    }
}

/// The shade of grey, from black at zero to white at one, that a height is
/// previewed in: 255 times the height, rounded to the nearest whole number
/// and kept within a byte.
pub open spec fn grey_of(height: int) -> int {
    if height <= 0 {
        0
    } else if height >= UNIT {
        255
    } else {
        (height * 255 + UNIT / 2) / (UNIT as int)
    }
}

/// Computes the shade of grey that a height is previewed in.
pub fn grey_level(height: i64) -> (shade: u8)
    ensures
        shade == grey_of(height as int),
{
    if height <= 0 {
        0
    } else if height >= UNIT {
        255
    } else {
        ((height * 255 + UNIT / 2) / UNIT) as u8
    }
}

} // verus!
