//! The scene lighting modes the viewer cycles through.

use vstd::prelude::*;

verus! {

/// Lighting mode for the scene.
#[derive(Clone, Copy, PartialEq, Eq, Structural, Debug)]
pub enum LightingMode {
    /// The four directional architectural lights, no photometric lights.
    Architectural,
    /// Fixture lights only.
    Photometric,
    /// Dimmed architectural lights plus fixture lights.
    Combined,
}

impl Default for LightingMode {
    fn default() -> (r: Self)
        ensures
            r == LightingMode::Architectural,
    {
        LightingMode::Architectural
    }
}

impl LightingMode {
    /// The mode after this one in the cycle.
    pub open spec fn spec_next(self) -> LightingMode {
        match self {
            LightingMode::Architectural => LightingMode::Photometric,
            LightingMode::Photometric => LightingMode::Combined,
            LightingMode::Combined => LightingMode::Architectural,
        }
    }

    /// The label of a mode.
    pub open spec fn spec_label(self) -> Seq<char> {
        match self {
            LightingMode::Architectural => "Architectural"@,
            LightingMode::Photometric => "Photometric"@,
            LightingMode::Combined => "Combined"@,
        }
    }

    /// Cycle Architectural, Photometric, Combined, Architectural, ...
    pub fn next(self) -> (r: Self)
        ensures
            r == self.spec_next(),
    {
        match self {
            LightingMode::Architectural => LightingMode::Photometric,
            LightingMode::Photometric => LightingMode::Combined,
            LightingMode::Combined => LightingMode::Architectural,
        }
    }

    /// Human-readable name of the mode.
    pub fn label(self) -> (r: &'static str)
        ensures
            r@ == self.spec_label(),
    {
        match self {
            LightingMode::Architectural => "Architectural",
            LightingMode::Photometric => "Photometric",
            LightingMode::Combined => "Combined",
        }
    }
}

/// Pressing the mode key three times returns to the starting mode, and no
/// fewer presses do.
pub proof fn law_three_presses_cycle(m: LightingMode)
    ensures
        m.spec_next().spec_next().spec_next() == m,
        m.spec_next() != m,
        m.spec_next().spec_next() != m,
{
}

} // verus!
