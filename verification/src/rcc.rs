//! The clocks that the clock tree delivers, once it is configured.

use vstd::prelude::*;
use crate::time::Hertz;

verus! {

/// The frozen clock frequencies. A clock that is not configured has none.
#[derive(Clone, Copy, Debug)]
pub struct Clocks {
    i2s_apb1_clk: Option<Hertz>,
    i2s_apb2_clk: Option<Hertz>,
}

impl Clocks {
    /// The I2S clock of the peripherals on the first peripheral bus.
    pub closed spec fn spec_i2s_apb1_clk(&self) -> Option<Hertz> {
        self.i2s_apb1_clk
    }

    /// The I2S clock of the peripherals on the second peripheral bus.
    pub closed spec fn spec_i2s_apb2_clk(&self) -> Option<Hertz> {
        self.i2s_apb2_clk
    }

    /// Clocks with the given I2S clocks.
    pub fn new(i2s_apb1_clk: Option<Hertz>, i2s_apb2_clk: Option<Hertz>) -> (clocks: Clocks)
        ensures
            clocks.i2s_apb1_clk() == i2s_apb1_clk,
            clocks.i2s_apb2_clk() == i2s_apb2_clk,
    {
        Clocks { i2s_apb1_clk, i2s_apb2_clk }
    }

    /// The I2S clock of the peripherals on the first peripheral bus.
    #[verifier::when_used_as_spec(spec_i2s_apb1_clk)]
    pub fn i2s_apb1_clk(&self) -> (clk: Option<Hertz>)
        ensures
            clk == self.spec_i2s_apb1_clk(),
    {
        self.i2s_apb1_clk
    }

    /// The I2S clock of the peripherals on the second peripheral bus.
    #[verifier::when_used_as_spec(spec_i2s_apb2_clk)]
    pub fn i2s_apb2_clk(&self) -> (clk: Option<Hertz>)
        ensures
            clk == self.spec_i2s_apb2_clk(),
    {
        self.i2s_apb2_clk
    }
}

} // verus!
