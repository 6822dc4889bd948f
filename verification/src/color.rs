//! The colour schemes by name, and the order in which they follow one
//! another.

use vstd::prelude::*;

verus! {

/// A named colour gradient.
#[derive(Clone, Copy, Debug, PartialEq, Eq, Structural)]
pub enum ColorScheme {
    Ice,
    Fire,
    Plasma,
    Viridis,
    Rainbow,
    Grayscale,
    Ocean,
    Neon,
    Lagoon,
    Violet,
    Harvest,
    Midnight,
    Frost,
    Sunset,
    Matrix,
    Amber,
}

impl Default for ColorScheme {
    /// The first scheme of the cycle.
    fn default() -> (d: ColorScheme)
        ensures
            d == ColorScheme::Ice,
    {
        ColorScheme::Ice
    }
}

impl ColorScheme {
    pub open spec fn spec_name(&self) -> Seq<char> {
        match self {
            ColorScheme::Ice => "Ice"@,
            ColorScheme::Fire => "Fire"@,
            ColorScheme::Plasma => "Plasma"@,
            ColorScheme::Viridis => "Viridis"@,
            ColorScheme::Rainbow => "Rainbow"@,
            ColorScheme::Grayscale => "Grayscale"@,
            ColorScheme::Ocean => "Ocean"@,
            ColorScheme::Neon => "Neon"@,
            ColorScheme::Lagoon => "Lagoon"@,
            ColorScheme::Violet => "Violet"@,
            ColorScheme::Harvest => "Harvest"@,
            ColorScheme::Midnight => "Midnight"@,
            ColorScheme::Frost => "Frost"@,
            ColorScheme::Sunset => "Sunset"@,
            ColorScheme::Matrix => "Matrix"@,
            ColorScheme::Amber => "Amber"@,
        }
    }

    pub open spec fn spec_next(&self) -> ColorScheme {
        match self {
            ColorScheme::Ice => ColorScheme::Fire,
            ColorScheme::Fire => ColorScheme::Plasma,
            ColorScheme::Plasma => ColorScheme::Viridis,
            ColorScheme::Viridis => ColorScheme::Rainbow,
            ColorScheme::Rainbow => ColorScheme::Grayscale,
            ColorScheme::Grayscale => ColorScheme::Ocean,
            ColorScheme::Ocean => ColorScheme::Neon,
            ColorScheme::Neon => ColorScheme::Lagoon,
            ColorScheme::Lagoon => ColorScheme::Violet,
            ColorScheme::Violet => ColorScheme::Harvest,
            ColorScheme::Harvest => ColorScheme::Midnight,
            ColorScheme::Midnight => ColorScheme::Frost,
            ColorScheme::Frost => ColorScheme::Sunset,
            ColorScheme::Sunset => ColorScheme::Matrix,
            ColorScheme::Matrix => ColorScheme::Amber,
            ColorScheme::Amber => ColorScheme::Ice,
        }
    }

    pub open spec fn spec_prev(&self) -> ColorScheme {
        match self {
            ColorScheme::Ice => ColorScheme::Amber,
            ColorScheme::Fire => ColorScheme::Ice,
            ColorScheme::Plasma => ColorScheme::Fire,
            ColorScheme::Viridis => ColorScheme::Plasma,
            ColorScheme::Rainbow => ColorScheme::Viridis,
            ColorScheme::Grayscale => ColorScheme::Rainbow,
            ColorScheme::Ocean => ColorScheme::Grayscale,
            ColorScheme::Neon => ColorScheme::Ocean,
            ColorScheme::Lagoon => ColorScheme::Neon,
            ColorScheme::Violet => ColorScheme::Lagoon,
            ColorScheme::Harvest => ColorScheme::Violet,
            ColorScheme::Midnight => ColorScheme::Harvest,
            ColorScheme::Frost => ColorScheme::Midnight,
            ColorScheme::Sunset => ColorScheme::Frost,
            ColorScheme::Matrix => ColorScheme::Sunset,
            ColorScheme::Amber => ColorScheme::Matrix,
        }
    }

    /// Position of the scheme in the cycle.
    pub open spec fn spec_index(&self) -> int {
        match self {
            ColorScheme::Ice => 0,
            ColorScheme::Fire => 1,
            ColorScheme::Plasma => 2,
            ColorScheme::Viridis => 3,
            ColorScheme::Rainbow => 4,
            ColorScheme::Grayscale => 5,
            ColorScheme::Ocean => 6,
            ColorScheme::Neon => 7,
            ColorScheme::Lagoon => 8,
            ColorScheme::Violet => 9,
            ColorScheme::Harvest => 10,
            ColorScheme::Midnight => 11,
            ColorScheme::Frost => 12,
            ColorScheme::Sunset => 13,
            ColorScheme::Matrix => 14,
            ColorScheme::Amber => 15,
        }
    }

    /// The name of the scheme.
    pub fn name(&self) -> (s: &'static str)
        ensures
            s@ == self.spec_name(),
    {
        match self {
            ColorScheme::Ice => "Ice",
            ColorScheme::Fire => "Fire",
            ColorScheme::Plasma => "Plasma",
            ColorScheme::Viridis => "Viridis",
            ColorScheme::Rainbow => "Rainbow",
            ColorScheme::Grayscale => "Grayscale",
            ColorScheme::Ocean => "Ocean",
            ColorScheme::Neon => "Neon",
            ColorScheme::Lagoon => "Lagoon",
            ColorScheme::Violet => "Violet",
            ColorScheme::Harvest => "Harvest",
            ColorScheme::Midnight => "Midnight",
            ColorScheme::Frost => "Frost",
            ColorScheme::Sunset => "Sunset",
            ColorScheme::Matrix => "Matrix",
            ColorScheme::Amber => "Amber",
        }
    }

    /// The scheme that follows this one; the last is followed by the first.
    pub fn next(&self) -> (c: ColorScheme)
        ensures
            c == self.spec_next(),
            c.spec_index() == (self.spec_index() + 1) % 16,
    {
        match self {
            ColorScheme::Ice => ColorScheme::Fire,
            ColorScheme::Fire => ColorScheme::Plasma,
            ColorScheme::Plasma => ColorScheme::Viridis,
            ColorScheme::Viridis => ColorScheme::Rainbow,
            ColorScheme::Rainbow => ColorScheme::Grayscale,
            ColorScheme::Grayscale => ColorScheme::Ocean,
            ColorScheme::Ocean => ColorScheme::Neon,
            ColorScheme::Neon => ColorScheme::Lagoon,
            ColorScheme::Lagoon => ColorScheme::Violet,
            ColorScheme::Violet => ColorScheme::Harvest,
            ColorScheme::Harvest => ColorScheme::Midnight,
            ColorScheme::Midnight => ColorScheme::Frost,
            ColorScheme::Frost => ColorScheme::Sunset,
            ColorScheme::Sunset => ColorScheme::Matrix,
            ColorScheme::Matrix => ColorScheme::Amber,
            ColorScheme::Amber => ColorScheme::Ice,
        }
    }

    /// The scheme that precedes this one; the first is preceded by the
    /// last.
    pub fn prev(&self) -> (c: ColorScheme)
        ensures
            c == self.spec_prev(),
            c.spec_index() == (self.spec_index() + 15) % 16,
    {
        match self {
            ColorScheme::Ice => ColorScheme::Amber,
            ColorScheme::Fire => ColorScheme::Ice,
            ColorScheme::Plasma => ColorScheme::Fire,
            ColorScheme::Viridis => ColorScheme::Plasma,
            ColorScheme::Rainbow => ColorScheme::Viridis,
            ColorScheme::Grayscale => ColorScheme::Rainbow,
            ColorScheme::Ocean => ColorScheme::Grayscale,
            ColorScheme::Neon => ColorScheme::Ocean,
            ColorScheme::Lagoon => ColorScheme::Neon,
            ColorScheme::Violet => ColorScheme::Lagoon,
            ColorScheme::Harvest => ColorScheme::Violet,
            ColorScheme::Midnight => ColorScheme::Harvest,
            ColorScheme::Frost => ColorScheme::Midnight,
            ColorScheme::Sunset => ColorScheme::Frost,
            ColorScheme::Matrix => ColorScheme::Sunset,
            ColorScheme::Amber => ColorScheme::Matrix,
        }
    }
}

/// Forward and then back, or back and then forward, returns to the scheme
/// one started from.
pub proof fn lemma_color_scheme_cycle(c: ColorScheme)
    ensures
        c.spec_next().spec_prev() == c,
        c.spec_prev().spec_next() == c,
{
}

} // verus!
