//! I2S (inter-IC sound) over the serial peripherals.
//!
//! An `I2s` owns a serial peripheral and the four lines that carry the I2S
//! signals, routed to that peripheral.

use vstd::prelude::*;
use crate::gpio::{Const, Gpio, NoPin, Pin, PinA, PushPull, SetAlternate, Write};
use crate::rcc::Clocks;
use crate::spi;
use crate::time::Hertz;

verus! {

// The I2S lines are mostly the lines of the serial peripheral under another
// name:
// MOSI -> SD
// NSS -> WS
// SCK -> CK
// The master clock output is a line of its own.
/// The part of the SD (serial data) line.
pub type Sd = spi::Mosi;

/// The part of the WS (word select, left/right clock) line.
pub type Ws = spi::Nss;

/// The part of the CK (bit clock) line.
pub type Ck = spi::Sck;

/// The part of the MCK (master clock output) line.
pub struct Mck;

/// Stands for the master clock line when none is needed.
pub type NoMasterClock = NoPin;

impl<MODE> PinA<Mck, spi::Spi2> for Pin<2, 6, MODE> {
    type A = Const<5>;
}

impl<MODE> PinA<Mck, spi::Spi3> for Pin<2, 7, MODE> {
    type A = Const<6>;
}

/// A set of lines that can carry I2S for peripheral `SPI`: (WS, CK, MCLK,
/// SD). `NoMasterClock` can stand for the master clock line.
pub trait Pins<SPI> {

}

impl<SPI, PWS, PCK, PMCLK, PSD> Pins<SPI> for (PWS, PCK, PMCLK, PSD) where
    PWS: PinA<Ws, SPI>,
    PCK: PinA<Ck, SPI>,
    PMCLK: PinA<Mck, SPI>,
    PSD: PinA<Sd, SPI>,
 {

}

/// A serial peripheral that can do I2S.
pub trait I2sFreq {
    /// The clock that feeds the I2S part of the peripheral, if it is
    /// configured.
    spec fn clock(clocks: Clocks) -> Option<Hertz>;

    /// The frequency of the clock that feeds the I2S part of the peripheral.
    /// The clock has to be configured.
    fn i2s_freq(clocks: &Clocks) -> (freq: Hertz)
        requires
            Self::clock(*clocks) is Some,
        ensures
            Self::clock(*clocks) == Some(freq),
    ;
}

impl I2sFreq for spi::Spi1 {
    open spec fn clock(clocks: Clocks) -> Option<Hertz> {
        clocks.i2s_apb2_clk()
    }

    fn i2s_freq(clocks: &Clocks) -> (freq: Hertz) {
        clocks.i2s_apb2_clk().unwrap()
    }
}

impl I2sFreq for spi::Spi2 {
    open spec fn clock(clocks: Clocks) -> Option<Hertz> {
        clocks.i2s_apb1_clk()
    }

    fn i2s_freq(clocks: &Clocks) -> (freq: Hertz) {
        clocks.i2s_apb1_clk().unwrap()
    }
}

impl I2sFreq for spi::Spi3 {
    open spec fn clock(clocks: Clocks) -> Option<Hertz> {
        clocks.i2s_apb1_clk()
    }

    fn i2s_freq(clocks: &Clocks) -> (freq: Hertz) {
        clocks.i2s_apb1_clk().unwrap()
    }
}

/// A serial peripheral with its I2S lines.
pub struct I2s<I, PINS> {
    _spi: I,
    _pins: PINS,
    /// Frequency of the clock that feeds the I2S part of the peripheral.
    input_clock: Hertz,
}

impl<
    SPI,
    WS,
    CK,
    MCLK,
    SD,
    const WSA: u8,
    const CKA: u8,
    const MCLKA: u8,
    const SDA: u8,
> I2s<SPI, (WS, CK, MCLK, SD)> where
    SPI: I2sFreq,
    WS: PinA<Ws, SPI, A = Const<WSA>> + SetAlternate<PushPull, WSA>,
    CK: PinA<Ck, SPI, A = Const<CKA>> + SetAlternate<PushPull, CKA>,
    MCLK: PinA<Mck, SPI, A = Const<MCLKA>> + SetAlternate<PushPull, MCLKA>,
    SD: PinA<Sd, SPI, A = Const<SDA>> + SetAlternate<PushPull, SDA>,
 {
    /// The register writes that route the four lines to the peripheral: WS
    /// first, then CK, MCLK and SD.
    pub open spec fn route_writes(pins: (WS, CK, MCLK, SD)) -> Seq<Write> {
        pins.0.alt_writes() + pins.1.alt_writes() + pins.2.alt_writes() + pins.3.alt_writes()
    }

    /// Takes a serial peripheral and its lines, and routes the lines to the
    /// peripheral. The peripheral itself is not configured.
    ///
    /// The I2S clock of the peripheral has to be configured.
    pub fn new(spi: SPI, pins: (WS, CK, MCLK, SD), clocks: &Clocks, hw: &mut Gpio) -> (i2s: Self)
        requires
            SPI::clock(*clocks) is Some,
        ensures
            SPI::clock(*clocks) == Some(i2s.clock()),
            i2s.pins() == pins,
            final(hw)@ == old(hw)@.apply_all(Self::route_writes(pins)),
    {
        let input_clock = SPI::i2s_freq(clocks);
        let mut pins = pins;
        let ghost a = pins.0.alt_writes();
        let ghost b = pins.1.alt_writes();
        let ghost c = pins.2.alt_writes();
        let ghost d = pins.3.alt_writes();
        proof {
            hw@.lemma_apply_all_add(a + b + c, d);
            hw@.lemma_apply_all_add(a + b, c);
            hw@.lemma_apply_all_add(a, b);
        }
        pins.0.set_alt_mode(hw);
        pins.1.set_alt_mode(hw);
        pins.2.set_alt_mode(hw);
        pins.3.set_alt_mode(hw);
        I2s { _spi: spi, _pins: pins, input_clock }
    }
}

impl<I, PINS> I2s<I, PINS> {
    /// The frequency of the clock that feeds the I2S part of the peripheral.
    pub closed spec fn clock(&self) -> Hertz {
        self.input_clock
    }

    /// The lines that the peripheral holds.
    pub closed spec fn pins(&self) -> PINS {
        self._pins
    }

    /// The frequency of the clock that the peripheral receives from the I2S
    /// clock source.
    pub fn input_clock(&self) -> (freq: Hertz)
        ensures
            freq == self.clock(),
    {
        self.input_clock
    }
}

} // verus!
