//! Handles that know their port at compile time and their line number only
//! at run time.

use core::marker::PhantomData;
use vstd::prelude::*;
use crate::gpio::{
    marker, ErasedPin, Gpio, Level, LineId, Output, PinExt, PinMode, LINES_PER_PORT, PORT_COUNT,
};

verus! {

/// Handle of a line of port `P` in mode `MODE`; the line number is a
/// run-time value.
pub struct PartiallyErasedPin<const P: u8, MODE> {
    i: u8,
    _mode: PhantomData<MODE>,
}

impl<const P: u8, MODE> PinExt for PartiallyErasedPin<P, MODE> {
    type Mode = MODE;

    closed spec fn id(&self) -> LineId {
        LineId { port: P, line: self.i }
    }

    fn pin_id(&self) -> (n: u8) {
        proof {
            use_type_invariant(self);
        }
        self.i
    }

    fn port_id(&self) -> (p: u8) {
        proof {
            use_type_invariant(self);
        }
        P
    }
}

impl<const P: u8, MODE> PartiallyErasedPin<P, MODE> {
    #[verifier::type_invariant]
    spec fn inv(self) -> bool {
        P < PORT_COUNT && self.i < LINES_PER_PORT
    }

    /// The handle of line `line` of port `P`.
    pub closed spec fn of_line(line: u8) -> Self {
        PartiallyErasedPin { i: line, _mode: PhantomData }
    }

    /// Handles of one port are told apart by their line number alone.
    pub proof fn lemma_of_line(line: u8)
        ensures
            Self::of_line(line).id() == (LineId { port: P, line }),
    {
    }

    pub(crate) fn new(line: u8) -> (pin: Self)
        requires
            P < PORT_COUNT,
            line < LINES_PER_PORT,
        ensures
            pin == Self::of_line(line),
            pin.id() == (LineId { port: P, line }),
    {
        PartiallyErasedPin { i: line, _mode: PhantomData }
    }

    /// The line that the handle stands for, as a value.
    pub fn line_id(&self) -> (id: LineId)
        ensures
            id == self.id(),
            id.valid(),
    {
        proof {
            use_type_invariant(self);
        }
        LineId { port: P, line: self.i }
    }

    /// Gives up the port as well: the handle knows it only at run time.
    pub fn erase(self) -> (pin: ErasedPin<MODE>)
        ensures
            pin == self.erased(),
            pin.id() == self.id(),
    {
        proof {
            use_type_invariant(&self);
        }
        ErasedPin::new(P, self.i)
    }

    /// The handle that `erase` gives.
    pub open spec fn erased(self) -> ErasedPin<MODE> {
        ErasedPin::of_line(self.id())
    }
}

impl<const P: u8, MODE> PartiallyErasedPin<P, MODE> {
    /// Puts the line into mode `M`.
    pub fn into_mode<M: PinMode>(self, hw: &mut Gpio) -> (pin: PartiallyErasedPin<P, M>)
        ensures
            pin.id() == self.id(),
            final(hw)@ == old(hw)@.configure(self.id(), M::mode()),
            final(hw)@.mode(self.id()) == M::mode(),
    {
        let id = self.line_id();
        proof {
            hw@.lemma_configure(id, M::mode());
        }
        hw.configure(id, M::mode_value());
        PartiallyErasedPin::new(id.line)
    }
}

impl<const P: u8, Otype> PartiallyErasedPin<P, Output<Otype>> {
    /// Drives the line high.
    pub fn set_high(&mut self, hw: &mut Gpio)
        ensures
            *final(self) == *old(self),
            final(hw)@ == old(hw)@.drive(old(self).id(), Level::High),
            final(hw)@.output(old(self).id()) == Level::High,
    {
        hw.drive(self.line_id(), Level::High)
    }

    /// Drives the line low.
    pub fn set_low(&mut self, hw: &mut Gpio)
        ensures
            *final(self) == *old(self),
            final(hw)@ == old(hw)@.drive(old(self).id(), Level::Low),
            final(hw)@.output(old(self).id()) == Level::Low,
    {
        hw.drive(self.line_id(), Level::Low)
    }

    /// Drives the line to `state`.
    pub fn set_state(&mut self, hw: &mut Gpio, state: Level)
        ensures
            *final(self) == *old(self),
            final(hw)@ == old(hw)@.drive(old(self).id(), state),
            final(hw)@.output(old(self).id()) == state,
    {
        hw.drive(self.line_id(), state)
    }

    /// The level that the line is driven to.
    pub fn get_state(&self, hw: &Gpio) -> (state: Level)
        ensures
            state == hw@.output(self.id()),
    {
        hw.output(self.line_id())
    }

    /// Whether the line is driven high.
    pub fn is_set_high(&self, hw: &Gpio) -> (r: bool)
        ensures
            r == (hw@.output(self.id()) == Level::High),
    {
        !self.is_set_low(hw)
    }

    /// Whether the line is driven low.
    pub fn is_set_low(&self, hw: &Gpio) -> (r: bool)
        ensures
            r == (hw@.output(self.id()) == Level::Low),
    {
        match hw.output(self.line_id()) {
            Level::Low => true,
            Level::High => false,
        }
    }

    /// Drives the line to the level opposite to the one it is driven to.
    pub fn toggle(&mut self, hw: &mut Gpio)
        ensures
            *final(self) == *old(self),
            final(hw)@ == old(hw)@.toggle(old(self).id()),
            final(hw)@.output(old(self).id()) == old(hw)@.output(old(self).id()).inverted(),
    {
        if self.is_set_low(hw) {
            self.set_high(hw)
        } else {
            self.set_low(hw)
        }
    }
}

impl<const P: u8, MODE: marker::Readable> PartiallyErasedPin<P, MODE> {
    /// Whether the level at the pad is high.
    pub fn is_high(&self, hw: &Gpio) -> (r: bool)
        ensures
            r == (hw@.input(self.id()) == Level::High),
    {
        !self.is_low(hw)
    }

    /// Whether the level at the pad is low.
    pub fn is_low(&self, hw: &Gpio) -> (r: bool)
        ensures
            r == (hw@.input(self.id()) == Level::Low),
    {
        match hw.input(self.line_id()) {
            Level::Low => true,
            Level::High => false,
        }
    }
}

} // verus!
