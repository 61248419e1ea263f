//! The registers of one port.
//!
//! A port packs the fields of its sixteen lines into 32-bit words: two bits
//! per line for the function, one bit per line for the output stage, the
//! output latch and the sampled input, and four bits per line, over two
//! words, for the multiplexer setting. `PortRegs::line` unpacks one line;
//! `PortRegs::set` stores one field of one line and leaves the other fifteen
//! lines as they were.

use vstd::prelude::*;
use crate::gpio::bits::{
    bit, field2, field4, get_bit, get_field2, get_field4, lemma_with_bit, lemma_with_field2,
    lemma_with_field4, spec_with_bit, spec_with_field2, spec_with_field4,
};
use crate::gpio::line::{
    Function, Level, LineState, OutputType, Setting, ALTERNATE_COUNT, LINES_PER_PORT,
};

verus! {

/// The function that two bits of the mode register stand for.
pub open spec fn function_of(bits: u32) -> Function {
    if bits == 0b00 {
        Function::Input
    } else if bits == 0b01 {
        Function::Output
    } else if bits == 0b10 {
        Function::Alternate
    } else {
        Function::Analog
    }
}

/// The word written to the set/reset register to bring the latch of line `n`
/// to `high`: bit `n` sets the latch, bit `n + 16` clears it.
pub open spec fn set_reset_word(n: u32, high: bool) -> u32 {
    if high {
        1u32 << n
    } else {
        1u32 << ((n + 16) as u32)
    }
}

/// The output latch after `word` was written to the set/reset register.
pub open spec fn latch_after(odr: u32, word: u32) -> u32 {
    (odr & !(word >> 16)) | (word & 0xFFFF)
}

proof fn lemma_set_reset(odr: u32, n: u32, high: bool, k: u32)
    by (bit_vector)
    requires
        n < 16,
        k < 16,
    ensures
        bit(latch_after(odr, set_reset_word(n, high)), k) == (if k == n {
            high
        } else {
            bit(odr, k)
        }),
{
}

proof fn lemma_zero_word(k: u32)
    by (bit_vector)
    requires
        k < 16,
    ensures
        !bit(0, k),
        field2(0, k) == 0,
        k < 8 ==> field4(0, k) == 0,
{
}

/// The registers of one port.
#[derive(Clone, Copy)]
pub struct PortRegs {
    /// Function of each line, two bits per line.
    pub moder: u32,
    /// Output stage of each line, one bit per line; set for open drain.
    pub otyper: u32,
    /// Multiplexer setting of lines 0 to 7, four bits per line.
    pub afrl: u32,
    /// Multiplexer setting of lines 8 to 15, four bits per line.
    pub afrh: u32,
    /// Output latch, one bit per line.
    pub odr: u32,
    /// Sampled input, one bit per line.
    pub idr: u32,
}

impl PortRegs {
    /// The multiplexer setting stored for line `n`.
    pub open spec fn alt(self, n: u8) -> u32 {
        if n < 8 {
            field4(self.afrl, n as u32)
        } else {
            field4(self.afrh, (n - 8) as u32)
        }
    }

    /// What the registers hold about line `n`.
    pub open spec fn line(self, n: u8) -> LineState {
        LineState {
            function: function_of(field2(self.moder, n as u32)),
            otype: if bit(self.otyper, n as u32) {
                OutputType::OpenDrain
            } else {
                OutputType::PushPull
            },
            alt: self.alt(n) as u8,
            output: Level::spec_from_bit(bit(self.odr, n as u32)),
            input: Level::spec_from_bit(bit(self.idr, n as u32)),
        }
    }

    /// The registers after reset: every word zero.
    pub fn reset() -> (r: PortRegs)
        ensures
            forall|k: u8| k < LINES_PER_PORT ==> #[trigger] r.line(k) == LineState::reset(),
    {
        let r = PortRegs { moder: 0, otyper: 0, afrl: 0, afrh: 0, odr: 0, idr: 0 };
        proof {
            assert forall|k: u8| k < LINES_PER_PORT implies #[trigger] r.line(k)
                == LineState::reset() by {
                lemma_zero_word(k as u32);
                if k >= 8 {
                    lemma_zero_word((k - 8) as u32);
                }
            }
        }
        r
    }

    /// Unpacks line `n`.
    pub fn get(&self, n: u8) -> (s: LineState)
        requires
            n < LINES_PER_PORT,
        ensures
            s == self.line(n),
            s.alt < ALTERNATE_COUNT,
    {
        let i: u32 = n as u32;
        let bits: u32 = get_field2(self.moder, i);
        let function = if bits == 0b00 {
            Function::Input
        } else if bits == 0b01 {
            Function::Output
        } else if bits == 0b10 {
            Function::Alternate
        } else {
            Function::Analog
        };
        let otype = if get_bit(self.otyper, i) {
            OutputType::OpenDrain
        } else {
            OutputType::PushPull
        };
        let alt: u32 = if n < 8 {
            get_field4(self.afrl, i)
        } else {
            get_field4(self.afrh, i - 8)
        };
        LineState {
            function,
            otype,
            alt: alt as u8,
            output: Level::from_bit(get_bit(self.odr, i)),
            input: Level::from_bit(get_bit(self.idr, i)),
        }
    }

    /// Stores one field of line `n`.
    pub fn set(&mut self, n: u8, setting: Setting)
        requires
            n < LINES_PER_PORT,
            setting.valid(),
        ensures
            forall|k: u8|
                k < LINES_PER_PORT ==> #[trigger] final(self).line(k) == (if k == n {
                    old(self).line(n).with(setting)
                } else {
                    old(self).line(k)
                }),
    {
        let i: u32 = n as u32;
        match setting {
            Setting::Level(level) => {
                let word: u32 = match level {
                    Level::High => 1u32 << i,
                    Level::Low => 1u32 << (i + 16),
                };
                let odr: u32 = (self.odr & !(word >> 16)) | (word & 0xFFFF);
                proof {
                    assert forall|k: u32| k < 16 implies #[trigger] bit(odr, k) == (if k == i {
                        level == Level::High
                    } else {
                        bit(self.odr, k)
                    }) by {
                        lemma_set_reset(self.odr, i, level == Level::High, k);
                    }
                }
                self.odr = odr;
            },
            Setting::OutputType(otype) => {
                let open_drain = match otype {
                    OutputType::PushPull => false,
                    OutputType::OpenDrain => true,
                };
                let otyper: u32 = if open_drain {
                    self.otyper | (1u32 << i)
                } else {
                    self.otyper & !(1u32 << i)
                };
                proof {
                    assert(otyper == spec_with_bit(self.otyper, i, open_drain));
                    assert forall|k: u32| k < 16 implies #[trigger] bit(otyper, k) == (if k == i {
                        open_drain
                    } else {
                        bit(self.otyper, k)
                    }) by {
                        lemma_with_bit(self.otyper, i, open_drain, k);
                    }
                }
                self.otyper = otyper;
            },
            Setting::Alternate(alt) => {
                let v: u32 = alt as u32;
                if n < 8 {
                    let shift: u32 = 4 * i;
                    let afrl: u32 = (self.afrl & !(0b1111u32 << shift)) | (v << shift);
                    proof {
                        assert(afrl == spec_with_field4(self.afrl, i, v));
                        assert forall|k: u32| k < 8 implies #[trigger] field4(afrl, k) == (if k
                            == i {
                            v
                        } else {
                            field4(self.afrl, k)
                        }) by {
                            lemma_with_field4(self.afrl, i, v, k);
                        }
                    }
                    self.afrl = afrl;
                } else {
                    let j: u32 = i - 8;
                    let shift: u32 = 4 * j;
                    let afrh: u32 = (self.afrh & !(0b1111u32 << shift)) | (v << shift);
                    proof {
                        assert(afrh == spec_with_field4(self.afrh, j, v));
                        assert forall|k: u32| k < 8 implies #[trigger] field4(afrh, k) == (if k
                            == j {
                            v
                        } else {
                            field4(self.afrh, k)
                        }) by {
                            lemma_with_field4(self.afrh, j, v, k);
                        }
                    }
                    self.afrh = afrh;
                }
            },
            Setting::Function(function) => {
                let v: u32 = match function {
                    Function::Input => 0b00,
                    Function::Output => 0b01,
                    Function::Alternate => 0b10,
                    Function::Analog => 0b11,
                };
                let shift: u32 = 2 * i;
                let moder: u32 = (self.moder & !(0b11u32 << shift)) | (v << shift);
                proof {
                    assert(moder == spec_with_field2(self.moder, i, v));
                    assert forall|k: u32| k < 16 implies #[trigger] field2(moder, k) == (if k
                        == i {
                        v
                    } else {
                        field2(self.moder, k)
                    }) by {
                        lemma_with_field2(self.moder, i, v, k);
                    }
                }
                self.moder = moder;
            },
        }
        proof {
            assert forall|k: u8| k < LINES_PER_PORT implies #[trigger] self.line(k) == (if k
                == n {
                old(self).line(n).with(setting)
            } else {
                old(self).line(k)
            }) by {
                let ku: u32 = k as u32;
                assert(ku < 16);
                if k >= 8 {
                    assert(((k - 8) as u32) < 8);
                }
            }
        }
    }

    /// Stores the level sampled at the pad of line `n`.
    pub fn sample(&mut self, n: u8, level: Level)
        requires
            n < LINES_PER_PORT,
        ensures
            forall|k: u8|
                k < LINES_PER_PORT ==> #[trigger] final(self).line(k) == (if k == n {
                    LineState { input: level, ..old(self).line(n) }
                } else {
                    old(self).line(k)
                }),
    {
        let i: u32 = n as u32;
        let high = level.is_high();
        let idr: u32 = if high {
            self.idr | (1u32 << i)
        } else {
            self.idr & !(1u32 << i)
        };
        proof {
            assert(idr == spec_with_bit(self.idr, i, high));
            assert forall|k: u32| k < 16 implies #[trigger] bit(idr, k) == (if k == i {
                high
            } else {
                bit(self.idr, k)
            }) by {
                lemma_with_bit(self.idr, i, high, k);
            }
        }
        self.idr = idr;
        proof {
            assert forall|k: u8| k < LINES_PER_PORT implies #[trigger] self.line(k) == (if k
                == n {
                LineState { input: level, ..old(self).line(n) }
            } else {
                old(self).line(k)
            }) by {
                assert((k as u32) < 16);
            }
        }
    }
}

} // verus!
