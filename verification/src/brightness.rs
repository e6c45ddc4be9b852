use vstd::prelude::*;

verus! {

/// Discrete illumination levels of the keypad glyphs.
#[derive(Debug, Clone, Copy, PartialEq, Eq, Structural)]
pub enum Brightness {
    Zero,
    Low,
    Half,
    Full,
}

impl Brightness {
    /// The byte that selects this level on the sideband bus.
    pub open spec fn spec_code(self) -> u8 {
        match self {
            Brightness::Zero => 0,
            Brightness::Low => 31,
            Brightness::Half => 24,
            Brightness::Full => 1,
        }
    }

    /// Returns the byte that selects this level on the sideband bus.
    pub fn code(self) -> (r: u8)
        ensures
            r == self.spec_code(),
    {
        match self {
            Brightness::Zero => 0,
            Brightness::Low => 31,
            Brightness::Half => 24,
            Brightness::Full => 1,
        }
    }
}

} // verus!
