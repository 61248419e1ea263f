//! Mode changes of typed handles.
//!
//! A mode change takes the handle, reconfigures the line and gives back a
//! handle with the new mode tag: the old handle is gone, so no handle with a
//! stale tag is left behind.

use vstd::prelude::*;
use crate::gpio::{
    Alternate, Analog, Dynamic, DynamicPin, Gpio, Input, Mode, OpenDrain, Output, Pin, PinExt,
    PinMode, PushPull,
};

verus! {

impl<const P: u8, const N: u8, MODE> Pin<P, N, MODE> {
    /// Reconfigures the line for mode `M` and keeps the tag of the handle.
    /// For owners that hold the handle while the line is lent to a
    /// peripheral.
    pub(crate) fn mode<M: PinMode>(&mut self, hw: &mut Gpio)
        ensures
            *final(self) == *old(self),
            final(hw)@ == old(hw)@.configure(old(self).id(), M::mode()),
    {
        let id = self.line_id();
        hw.configure(id, M::mode_value());
    }

    /// Puts the line into mode `M`.
    pub fn into_mode<M: PinMode>(self, hw: &mut Gpio) -> (pin: Pin<P, N, M>)
        ensures
            pin.id() == self.id(),
            final(hw)@ == old(hw)@.configure(self.id(), M::mode()),
            final(hw)@.mode(self.id()) == M::mode(),
    {
        let mut pin = self;
        pin.mode::<M>(hw);
        proof {
            use_type_invariant(&pin);
            old(hw)@.lemma_configure(pin.id(), M::mode());
        }
        Pin::new()
    }

    /// Makes the line a digital input.
    pub fn into_input(self, hw: &mut Gpio) -> (pin: Pin<P, N, Input>)
        ensures
            pin.id() == self.id(),
            final(hw)@ == old(hw)@.configure(self.id(), Mode::Input),
            final(hw)@.mode(self.id()) == Mode::Input,
    {
        self.into_mode(hw)
    }

    /// Makes the line a push-pull output. It drives the level that its
    /// output latch holds.
    pub fn into_push_pull_output(self, hw: &mut Gpio) -> (pin: Pin<P, N, Output<PushPull>>)
        ensures
            pin.id() == self.id(),
            final(hw)@ == old(hw)@.configure(self.id(), Output::<PushPull>::mode()),
            final(hw)@.mode(self.id()) == Output::<PushPull>::mode(),
    {
        self.into_mode(hw)
    }

    /// Makes the line an open-drain output. It drives the level that its
    /// output latch holds.
    pub fn into_open_drain_output(self, hw: &mut Gpio) -> (pin: Pin<P, N, Output<OpenDrain>>)
        ensures
            pin.id() == self.id(),
            final(hw)@ == old(hw)@.configure(self.id(), Output::<OpenDrain>::mode()),
            final(hw)@.mode(self.id()) == Output::<OpenDrain>::mode(),
    {
        self.into_mode(hw)
    }

    /// Makes the line analog.
    pub fn into_analog(self, hw: &mut Gpio) -> (pin: Pin<P, N, Analog>)
        ensures
            pin.id() == self.id(),
            final(hw)@ == old(hw)@.configure(self.id(), Mode::Analog),
            final(hw)@.mode(self.id()) == Mode::Analog,
    {
        self.into_mode(hw)
    }

    /// Routes the line to a peripheral through multiplexer setting `A`, with
    /// a push-pull output stage.
    pub fn into_alternate<const A: u8>(self, hw: &mut Gpio) -> (pin: Pin<
        P,
        N,
        Alternate<A, PushPull>,
    >)
        ensures
            pin.id() == self.id(),
            final(hw)@ == old(hw)@.configure(self.id(), Alternate::<A, PushPull>::mode()),
            final(hw)@.mode(self.id()) == Alternate::<A, PushPull>::mode(),
    {
        self.into_mode(hw)
    }

    /// Makes the line a digital input and gives a handle whose mode is a
    /// run-time value.
    pub fn into_dynamic(self, hw: &mut Gpio) -> (pin: DynamicPin<P, N>)
        ensures
            pin.id() == self.id(),
            pin.mode() == Dynamic::Input,
            final(hw)@ == old(hw)@.configure(self.id(), Mode::Input),
            final(hw)@.mode(self.id()) == Mode::Input,
    {
        let input = self.into_input(hw);
        proof {
            use_type_invariant(&input);
        }
        DynamicPin::new(Dynamic::Input)
    }
}

} // verus!
