//! Frequencies.

use vstd::prelude::*;

verus! {

/// A frequency in hertz.
#[derive(Clone, Copy, PartialEq, Eq, Structural, Debug)]
pub struct Hertz(pub u32);

impl Hertz {
    /// The frequency as a number of hertz.
    pub fn raw(self) -> (hz: u32)
        ensures
            hz == self.0,
    {
        self.0
    }
}

} // verus!
