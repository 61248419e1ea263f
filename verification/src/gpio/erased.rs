//! Handles that know their port and line number only at run time.

use core::marker::PhantomData;
use vstd::prelude::*;
use crate::gpio::{
    marker, Gpio, Level, LineId, Output, PinExt, PinMode, LINES_PER_PORT, PORT_COUNT,
};

verus! {

/// Handle of a line in mode `MODE`; port and line number are run-time values.
pub struct ErasedPin<MODE> {
    port: u8,
    line: u8,
    _mode: PhantomData<MODE>,
}

impl<MODE> PinExt for ErasedPin<MODE> {
    type Mode = MODE;

    closed spec fn id(&self) -> LineId {
        LineId { port: self.port, line: self.line }
    }

    fn pin_id(&self) -> (n: u8) {
        proof {
            use_type_invariant(self);
        }
        self.line
    }

    fn port_id(&self) -> (p: u8) {
        proof {
            use_type_invariant(self);
        }
        self.port
    }
}

impl<MODE> ErasedPin<MODE> {
    #[verifier::type_invariant]
    spec fn inv(self) -> bool {
        self.port < PORT_COUNT && self.line < LINES_PER_PORT
    }

    /// The erased handle of line `id`.
    pub closed spec fn of_line(id: LineId) -> Self {
        ErasedPin { port: id.port, line: id.line, _mode: PhantomData }
    }

    /// Erased handles are told apart by their line alone.
    pub proof fn lemma_of_line(id: LineId)
        ensures
            Self::of_line(id).id() == id,
    {
    }

    pub(crate) fn new(port: u8, line: u8) -> (pin: Self)
        requires
            port < PORT_COUNT,
            line < LINES_PER_PORT,
        ensures
            pin == Self::of_line(LineId { port, line }),
            pin.id() == (LineId { port, line }),
    {
        ErasedPin { port, line, _mode: PhantomData }
    }

    /// The line that the handle stands for, as a value.
    pub fn line_id(&self) -> (id: LineId)
        ensures
            id == self.id(),
            id.valid(),
    {
        proof {
            use_type_invariant(self);
        }
        LineId { port: self.port, line: self.line }
    }
}

impl<MODE> ErasedPin<MODE> {
    /// Puts the line into mode `M`.
    pub fn into_mode<M: PinMode>(self, hw: &mut Gpio) -> (pin: ErasedPin<M>)
        ensures
            pin.id() == self.id(),
            final(hw)@ == old(hw)@.configure(self.id(), M::mode()),
            final(hw)@.mode(self.id()) == M::mode(),
    {
        let id = self.line_id();
        proof {
            hw@.lemma_configure(id, M::mode());
        }
        hw.configure(id, M::mode_value());
        ErasedPin::new(id.port, id.line)
    }
}

impl<Otype> ErasedPin<Output<Otype>> {
    /// Drives the line high.
    pub fn set_high(&mut self, hw: &mut Gpio)
        ensures
            *final(self) == *old(self),
            final(hw)@ == old(hw)@.drive(old(self).id(), Level::High),
            final(hw)@.output(old(self).id()) == Level::High,
    {
        hw.drive(self.line_id(), Level::High)
    }

    /// Drives the line low.
    pub fn set_low(&mut self, hw: &mut Gpio)
        ensures
            *final(self) == *old(self),
            final(hw)@ == old(hw)@.drive(old(self).id(), Level::Low),
            final(hw)@.output(old(self).id()) == Level::Low,
    {
        hw.drive(self.line_id(), Level::Low)
    }

    /// Drives the line to `state`.
    pub fn set_state(&mut self, hw: &mut Gpio, state: Level)
        ensures
            *final(self) == *old(self),
            final(hw)@ == old(hw)@.drive(old(self).id(), state),
            final(hw)@.output(old(self).id()) == state,
    {
        hw.drive(self.line_id(), state)
    }

    /// The level that the line is driven to.
    pub fn get_state(&self, hw: &Gpio) -> (state: Level)
        ensures
            state == hw@.output(self.id()),
    {
        hw.output(self.line_id())
    }

    /// Whether the line is driven high.
    pub fn is_set_high(&self, hw: &Gpio) -> (r: bool)
        ensures
            r == (hw@.output(self.id()) == Level::High),
    {
        !self.is_set_low(hw)
    }

    /// Whether the line is driven low.
    pub fn is_set_low(&self, hw: &Gpio) -> (r: bool)
        ensures
            r == (hw@.output(self.id()) == Level::Low),
    {
        match hw.output(self.line_id()) {
            Level::Low => true,
            Level::High => false,
        }
    }

    /// Drives the line to the level opposite to the one it is driven to.
    pub fn toggle(&mut self, hw: &mut Gpio)
        ensures
            *final(self) == *old(self),
            final(hw)@ == old(hw)@.toggle(old(self).id()),
            final(hw)@.output(old(self).id()) == old(hw)@.output(old(self).id()).inverted(),
    {
        if self.is_set_low(hw) {
            self.set_high(hw)
        } else {
            self.set_low(hw)
        }
    }
}

impl<MODE: marker::Readable> ErasedPin<MODE> {
    /// Whether the level at the pad is high.
    pub fn is_high(&self, hw: &Gpio) -> (r: bool)
        ensures
            r == (hw@.input(self.id()) == Level::High),
    {
        !self.is_low(hw)
    }

    /// Whether the level at the pad is low.
    pub fn is_low(&self, hw: &Gpio) -> (r: bool)
        ensures
            r == (hw@.input(self.id()) == Level::Low),
    {
        match hw.input(self.line_id()) {
            Level::Low => true,
            Level::High => false,
        }
    }
}

} // verus!
