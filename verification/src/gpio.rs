//! General-purpose I/O lines and the handles that own them.
//!
//! A handle stands for one physical line. `Pin` knows its port, its line
//! number and its mode at compile time; the erased handles know the port or
//! the line number only at run time; `DynamicPin` knows its mode only at run
//! time. All of them act on a `Gpio`, the bank that holds the state of every
//! line.

pub mod alt;
pub mod bank;
mod bits;
pub mod convert;
pub mod dynamic;
pub mod erased;
pub mod hal_1;
pub mod laws;
pub mod line;
pub mod marker;
pub mod partially_erased;
mod port;

pub use crate::gpio::alt::{Const, NoPin, PinA, SetAlternate};
pub use crate::gpio::bank::{Gpio, GpioView};
pub use crate::gpio::dynamic::{Dynamic, DynamicPin, PinModeError};
pub use crate::gpio::erased::ErasedPin;
pub use crate::gpio::line::{
    Function, Level, LineId, LineState, Mode, OutputType, Setting, Write, ALTERNATE_COUNT,
    LINES_PER_PORT, PORT_COUNT,
};
pub use crate::gpio::partially_erased::PartiallyErasedPin;

use core::marker::PhantomData;
use vstd::prelude::*;

verus! {

/// Tag of a line that is a digital input.
pub struct Input;

/// Tag of a line that is analog.
pub struct Analog;

/// Tag of an output stage that drives both levels.
pub struct PushPull;

/// Tag of an output stage that drives low only.
pub struct OpenDrain;

/// Tag of a line that is a general-purpose output with output stage `Otype`.
pub struct Output<Otype> {
    _otype: PhantomData<Otype>,
}

/// Tag of a line that is routed to a peripheral through multiplexer setting
/// `A`, with output stage `Otype`. The multiplexer has `ALTERNATE_COUNT`
/// settings; `A` is taken modulo that number.
pub struct Alternate<const A: u8, Otype> {
    _otype: PhantomData<Otype>,
}

/// A mode tag that stands for an electrical configuration.
pub trait PinMode {
    /// The configuration that the tag stands for.
    spec fn mode() -> Mode;

    /// The configuration that the tag stands for, as a value. It is one
    /// that the hardware can take.
    fn mode_value() -> (m: Mode)
        ensures
            m == Self::mode(),
            m.valid(),
    ;
}

impl PinMode for Input {
    open spec fn mode() -> Mode {
        Mode::Input
    }

    fn mode_value() -> (m: Mode) {
        Mode::Input
    }
}

impl PinMode for Analog {
    open spec fn mode() -> Mode {
        Mode::Analog
    }

    fn mode_value() -> (m: Mode) {
        Mode::Analog
    }
}

impl PinMode for Output<PushPull> {
    open spec fn mode() -> Mode {
        Mode::Output(OutputType::PushPull)
    }

    fn mode_value() -> (m: Mode) {
        Mode::Output(OutputType::PushPull)
    }
}

impl PinMode for Output<OpenDrain> {
    open spec fn mode() -> Mode {
        Mode::Output(OutputType::OpenDrain)
    }

    fn mode_value() -> (m: Mode) {
        Mode::Output(OutputType::OpenDrain)
    }
}

impl<const A: u8> PinMode for Alternate<A, PushPull> {
    open spec fn mode() -> Mode {
        Mode::Alternate(A % ALTERNATE_COUNT, OutputType::PushPull)
    }

    fn mode_value() -> (m: Mode) {
        Mode::Alternate(A % ALTERNATE_COUNT, OutputType::PushPull)
    }
}

impl<const A: u8> PinMode for Alternate<A, OpenDrain> {
    open spec fn mode() -> Mode {
        Mode::Alternate(A % ALTERNATE_COUNT, OutputType::OpenDrain)
    }

    fn mode_value() -> (m: Mode) {
        Mode::Alternate(A % ALTERNATE_COUNT, OutputType::OpenDrain)
    }
}

/// What every handle can tell about itself.
pub trait PinExt {
    /// The mode tag of the handle.
    type Mode;

    /// The line that the handle stands for.
    spec fn id(&self) -> LineId;

    /// The number of the line on its port.
    fn pin_id(&self) -> (n: u8)
        ensures
            n == self.id().line,
            self.id().valid(),
    ;

    /// The number of the port; 0 is port A.
    fn port_id(&self) -> (p: u8)
        ensures
            p == self.id().port,
            self.id().valid(),
    ;
}

/// Handle of line `N` of port `P`, in mode `MODE`.
pub struct Pin<const P: u8, const N: u8, MODE> {
    _mode: PhantomData<MODE>,
}

impl<const P: u8, const N: u8, MODE> PinExt for Pin<P, N, MODE> {
    type Mode = MODE;

    open spec fn id(&self) -> LineId {
        LineId { port: P, line: N }
    }

    fn pin_id(&self) -> (n: u8) {
        proof {
            use_type_invariant(self);
        }
        N
    }

    fn port_id(&self) -> (p: u8) {
        proof {
            use_type_invariant(self);
        }
        P
    }
}

impl<const P: u8, const N: u8, MODE> Pin<P, N, MODE> {
    #[verifier::type_invariant]
    spec fn inv(self) -> bool {
        P < PORT_COUNT && N < LINES_PER_PORT
    }

    pub(crate) fn new() -> (pin: Self)
        requires
            P < PORT_COUNT,
            N < LINES_PER_PORT,
    {
        Pin { _mode: PhantomData }
    }

    /// The line that the handle stands for, as a value.
    pub fn line_id(&self) -> (id: LineId)
        ensures
            id == self.id(),
            id.valid(),
    {
        proof {
            use_type_invariant(self);
        }
        LineId { port: P, line: N }
    }

    /// Sets the output latch, whatever the mode of the line. The level shows
    /// at the pad once the line is an output.
    pub(crate) fn _set_state(&mut self, hw: &mut Gpio, state: Level)
        ensures
            *final(self) == *old(self),
            final(hw)@ == old(hw)@.drive(old(self).id(), state),
    {
        let id = self.line_id();
        hw.drive(id, state);
    }

    /// Gives up the line number: the handle knows it only at run time.
    pub fn erase_number(self) -> (pin: PartiallyErasedPin<P, MODE>)
        ensures
            pin == self.number_erased(),
            pin.id() == self.id(),
    {
        proof {
            use_type_invariant(&self);
        }
        PartiallyErasedPin::new(N)
    }

    /// Gives up the port and the line number: the handle knows them only at
    /// run time.
    pub fn erase(self) -> (pin: ErasedPin<MODE>)
        ensures
            pin == self.erased(),
            pin.id() == self.id(),
    {
        proof {
            use_type_invariant(&self);
        }
        ErasedPin::new(P, N)
    }

    /// The handle that `erase_number` gives.
    pub open spec fn number_erased(self) -> PartiallyErasedPin<P, MODE> {
        PartiallyErasedPin::of_line(N)
    }

    /// The handle that `erase` gives.
    pub open spec fn erased(self) -> ErasedPin<MODE> {
        ErasedPin::of_line(self.id())
    }
}

impl<const P: u8, const N: u8, Otype> Pin<P, N, Output<Otype>> {
    /// Drives the line high.
    pub fn set_high(&mut self, hw: &mut Gpio)
        ensures
            *final(self) == *old(self),
            final(hw)@ == old(hw)@.drive(old(self).id(), Level::High),
            final(hw)@.output(old(self).id()) == Level::High,
    {
        self._set_state(hw, Level::High)
    }

    /// Drives the line low.
    pub fn set_low(&mut self, hw: &mut Gpio)
        ensures
            *final(self) == *old(self),
            final(hw)@ == old(hw)@.drive(old(self).id(), Level::Low),
            final(hw)@.output(old(self).id()) == Level::Low,
    {
        self._set_state(hw, Level::Low)
    }

    /// Drives the line to `state`.
    pub fn set_state(&mut self, hw: &mut Gpio, state: Level)
        ensures
            *final(self) == *old(self),
            final(hw)@ == old(hw)@.drive(old(self).id(), state),
            final(hw)@.output(old(self).id()) == state,
    {
        self._set_state(hw, state)
    }

    /// The level that the line is driven to.
    pub fn get_state(&self, hw: &Gpio) -> (state: Level)
        ensures
            state == hw@.output(self.id()),
    {
        hw.output(self.line_id())
    }

    /// Whether the line is driven high.
    pub fn is_set_high(&self, hw: &Gpio) -> (r: bool)
        ensures
            r == (hw@.output(self.id()) == Level::High),
    {
        !self.is_set_low(hw)
    }

    /// Whether the line is driven low.
    pub fn is_set_low(&self, hw: &Gpio) -> (r: bool)
        ensures
            r == (hw@.output(self.id()) == Level::Low),
    {
        match hw.output(self.line_id()) {
            Level::Low => true,
            Level::High => false,
        }
    }

    /// Drives the line to the level opposite to the one it is driven to.
    pub fn toggle(&mut self, hw: &mut Gpio)
        ensures
            *final(self) == *old(self),
            final(hw)@ == old(hw)@.toggle(old(self).id()),
            final(hw)@.output(old(self).id()) == old(hw)@.output(old(self).id()).inverted(),
    {
        if self.is_set_low(hw) {
            self.set_high(hw)
        } else {
            self.set_low(hw)
        }
    }
}

impl<const P: u8, const N: u8, MODE: marker::Readable> Pin<P, N, MODE> {
    /// Whether the level at the pad is high.
    pub fn is_high(&self, hw: &Gpio) -> (r: bool)
        ensures
            r == (hw@.input(self.id()) == Level::High),
    {
        !self.is_low(hw)
    }

    /// Whether the level at the pad is low.
    pub fn is_low(&self, hw: &Gpio) -> (r: bool)
        ensures
            r == (hw@.input(self.id()) == Level::Low),
    {
        match hw.input(self.line_id()) {
            Level::Low => true,
            Level::High => false,
        }
    }
}

} // verus!
