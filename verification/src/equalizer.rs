//! Equalizer presets and their wire codes.

use vstd::prelude::*;

verus! {

/// The `EqualizerMode` type denotes different equalizer modes.
#[derive(Debug, Clone, Copy, PartialEq, Eq, Structural)]
pub enum EqualizerMode {
    /// Code 0.
    Normal,
    /// Code 1.
    Pop,
    /// Code 2.
    Rock,
    /// Code 3.
    Jazz,
    /// Code 4.
    Classical,
    /// Code 5.
    Bass,
}

impl EqualizerMode {
    /// The byte that stands for this mode on the wire.
    pub open spec fn spec_code(self) -> u8 {
        match self {
            EqualizerMode::Normal => 0,
            EqualizerMode::Pop => 1,
            EqualizerMode::Rock => 2,
            EqualizerMode::Jazz => 3,
            EqualizerMode::Classical => 4,
            EqualizerMode::Bass => 5,
        }
    }

    /// The byte that stands for this mode on the wire.
    #[verifier::when_used_as_spec(spec_code)]
    pub fn code(self) -> (code: u8)
        ensures
            code == self.spec_code(),
    {
        match self {
            EqualizerMode::Normal => 0,
            EqualizerMode::Pop => 1,
            EqualizerMode::Rock => 2,
            EqualizerMode::Jazz => 3,
            EqualizerMode::Classical => 4,
            EqualizerMode::Bass => 5,
        }
    }

    /// The codes are the numbers 0 to 5, and no two modes share one: a code on the wire
    /// stands for one mode and no other.
    pub proof fn codes_are_distinct(a: EqualizerMode, b: EqualizerMode)
        ensures
            a.code() <= 5,
            a.code() == b.code() <==> a == b,
    {
    }
}

} // verus!
