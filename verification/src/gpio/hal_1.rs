//! One digital I/O contract for every kind of handle.
//!
//! The traits here have the shape of the blocking digital traits of
//! `embedded-hal`, with the bank as an extra argument. Typed and erased
//! handles implement them with an error type that has no value; `DynamicPin`
//! implements them with `PinModeError`.

use core::convert::Infallible;
use embedded_hal::digital::PinState;
use vstd::prelude::*;
use crate::gpio::dynamic::PinModeError;
use crate::gpio::{
    marker, DynamicPin, ErasedPin, Gpio, GpioView, Input, Level, Mode, OpenDrain, Output,
    PartiallyErasedPin, Pin, PinExt, PinMode, Setting, Write,
};

verus! {

#[verifier::external_type_specification]
pub struct ExPinState(embedded_hal::digital::PinState);

/// The level that `state` asks for.
pub open spec fn level_of(state: PinState) -> Level {
    match state {
        PinState::Low => Level::Low,
        PinState::High => Level::High,
    }
}

/// Turns the pin state of `embedded-hal` into a level.
pub fn into_state(state: PinState) -> (level: Level)
    ensures
        level == level_of(state),
{
    match state {
        PinState::Low => Level::Low,
        PinState::High => Level::High,
    }
}

/// The error type of a handle's operations.
pub trait ErrorType {
    type Error;
}

/// A handle that can drive its line.
pub trait OutputPin: ErrorType + PinExt + Sized {
    /// The handle, as it stands, lets the line be driven.
    spec fn can_write(&self) -> bool;

    /// Drives the line low, if the handle lets it be driven. A failure
    /// writes nothing.
    fn set_low(&mut self, hw: &mut Gpio) -> (r: Result<(), Self::Error>)
        ensures
            *final(self) == *old(self),
            r is Ok <==> old(self).can_write(),
            final(hw)@ == (if r is Ok {
                old(hw)@.drive(old(self).id(), Level::Low)
            } else {
                old(hw)@
            }),
    ;

    /// Drives the line high, if the handle lets it be driven. A failure
    /// writes nothing.
    fn set_high(&mut self, hw: &mut Gpio) -> (r: Result<(), Self::Error>)
        ensures
            *final(self) == *old(self),
            r is Ok <==> old(self).can_write(),
            final(hw)@ == (if r is Ok {
                old(hw)@.drive(old(self).id(), Level::High)
            } else {
                old(hw)@
            }),
    ;
}

/// A handle that can read back the level it drives.
pub trait StatefulOutputPin: OutputPin {
    /// Whether the line is driven high. This is the output latch, not the
    /// level at the pad.
    fn is_set_high(&self, hw: &Gpio) -> (r: Result<bool, Self::Error>)
        ensures
            r is Ok <==> self.can_write(),
            r matches Ok(high) ==> high == (hw@.output(self.id()) == Level::High),
    ;

    /// Whether the line is driven low. This is the output latch, not the
    /// level at the pad.
    fn is_set_low(&self, hw: &Gpio) -> (r: Result<bool, Self::Error>)
        ensures
            r is Ok <==> self.can_write(),
            r matches Ok(low) ==> low == (hw@.output(self.id()) == Level::Low),
    ;
}

/// A handle that can invert the level it drives.
pub trait ToggleableOutputPin: OutputPin {
    /// Drives the line to the level opposite to the one it is driven to, if
    /// the handle lets it be driven. A failure writes nothing.
    fn toggle(&mut self, hw: &mut Gpio) -> (r: Result<(), Self::Error>)
        ensures
            *final(self) == *old(self),
            r is Ok <==> old(self).can_write(),
            final(hw)@ == (if r is Ok {
                old(hw)@.toggle(old(self).id())
            } else {
                old(hw)@
            }),
    ;
}

/// A handle that can read the level at the pad of its line.
pub trait InputPin: ErrorType + PinExt + Sized {
    /// The handle, as it stands, has a digital level to read.
    spec fn can_read(&self) -> bool;

    /// Whether the level at the pad is high.
    fn is_high(&self, hw: &Gpio) -> (r: Result<bool, Self::Error>)
        ensures
            r is Ok <==> self.can_read(),
            r matches Ok(high) ==> high == (hw@.input(self.id()) == Level::High),
    ;

    /// Whether the level at the pad is low.
    fn is_low(&self, hw: &Gpio) -> (r: Result<bool, Self::Error>)
        ensures
            r is Ok <==> self.can_read(),
            r matches Ok(low) ==> low == (hw@.input(self.id()) == Level::Low),
    ;
}

/// A handle that can change between reading and driving its line.
pub trait IoPin<TInput, TOutput>: PinExt + Sized where TInput: InputPin, TOutput: OutputPin {
    type Error;

    /// The register writes that `into_input_pin` makes, in order.
    spec fn input_writes(&self) -> Seq<Write>;

    /// The register writes that `into_output_pin` makes for `level`, in
    /// order.
    spec fn output_writes(&self, level: Level) -> Seq<Write>;

    /// Gives a handle of the same line that can read it.
    fn into_input_pin(self, hw: &mut Gpio) -> (r: Result<TInput, Self::Error>)
        ensures
            r is Ok,
            r matches Ok(pin) ==> pin.id() == self.id() && pin.can_read(),
            final(hw)@ == old(hw)@.apply_all(self.input_writes()),
    ;

    /// Gives a handle of the same line that drives it, with `state` in the
    /// output latch.
    fn into_output_pin(self, hw: &mut Gpio, state: PinState) -> (r: Result<TOutput, Self::Error>)
        ensures
            r is Ok,
            r matches Ok(pin) ==> pin.id() == self.id() && pin.can_write(),
            final(hw)@ == old(hw)@.apply_all(self.output_writes(level_of(state))),
    ;
}

// Implementations for `Pin`
impl<const P: u8, const N: u8, MODE> ErrorType for Pin<P, N, MODE> {
    type Error = Infallible;
}

impl<const P: u8, const N: u8, MODE> OutputPin for Pin<P, N, Output<MODE>> {
    open spec fn can_write(&self) -> bool {
        true
    }

    fn set_high(&mut self, hw: &mut Gpio) -> (r: Result<(), Self::Error>) {
        self.set_high(hw);
        Ok(())
    }

    fn set_low(&mut self, hw: &mut Gpio) -> (r: Result<(), Self::Error>) {
        self.set_low(hw);
        Ok(())
    }
}

impl<const P: u8, const N: u8, MODE> StatefulOutputPin for Pin<P, N, Output<MODE>> {
    fn is_set_high(&self, hw: &Gpio) -> (r: Result<bool, Self::Error>) {
        Ok(self.is_set_high(hw))
    }

    fn is_set_low(&self, hw: &Gpio) -> (r: Result<bool, Self::Error>) {
        Ok(self.is_set_low(hw))
    }
}

impl<const P: u8, const N: u8, MODE> ToggleableOutputPin for Pin<P, N, Output<MODE>> {
    fn toggle(&mut self, hw: &mut Gpio) -> (r: Result<(), Self::Error>) {
        self.toggle(hw);
        Ok(())
    }
}

impl<const P: u8, const N: u8, MODE> InputPin for Pin<P, N, MODE> where MODE: marker::Readable {
    open spec fn can_read(&self) -> bool {
        true
    }

    fn is_high(&self, hw: &Gpio) -> (r: Result<bool, Self::Error>) {
        Ok(self.is_high(hw))
    }

    fn is_low(&self, hw: &Gpio) -> (r: Result<bool, Self::Error>) {
        Ok(self.is_low(hw))
    }
}

impl<const P: u8, const N: u8> IoPin<Self, Self> for Pin<P, N, Output<OpenDrain>> {
    type Error = Infallible;

    /// An open-drain output can be read as it is: nothing is written.
    open spec fn input_writes(&self) -> Seq<Write> {
        Seq::empty()
    }

    open spec fn output_writes(&self, level: Level) -> Seq<Write> {
        seq![Write { id: self.id(), setting: Setting::Level(level) }]
    }

    fn into_input_pin(self, hw: &mut Gpio) -> (r: Result<Self, Infallible>) {
        Ok(self)
    }

    fn into_output_pin(self, hw: &mut Gpio, state: PinState) -> (r: Result<Self, Infallible>) {
        let mut pin = self;
        proof {
            hw@.lemma_apply_one(Write { id: pin.id(), setting: Setting::Level(level_of(state)) });
        }
        pin.set_state(hw, into_state(state));
        Ok(pin)
    }
}

impl<const P: u8, const N: u8, Otype> IoPin<Pin<P, N, Input>, Self> for Pin<
    P,
    N,
    Output<Otype>,
> where Output<Otype>: PinMode {
    type Error = Infallible;

    open spec fn input_writes(&self) -> Seq<Write> {
        GpioView::mode_writes(self.id(), Mode::Input)
    }

    open spec fn output_writes(&self, level: Level) -> Seq<Write> {
        seq![Write { id: self.id(), setting: Setting::Level(level) }]
    }

    fn into_input_pin(self, hw: &mut Gpio) -> (r: Result<Pin<P, N, Input>, Infallible>) {
        Ok(self.into_input(hw))
    }

    fn into_output_pin(self, hw: &mut Gpio, state: PinState) -> (r: Result<Self, Infallible>) {
        let mut pin = self;
        proof {
            hw@.lemma_apply_one(Write { id: pin.id(), setting: Setting::Level(level_of(state)) });
        }
        pin.set_state(hw, into_state(state));
        Ok(pin)
    }
}

impl<const P: u8, const N: u8, Otype> IoPin<Self, Pin<P, N, Output<Otype>>> for Pin<
    P,
    N,
    Input,
> where Output<Otype>: PinMode {
    type Error = Infallible;

    /// An input can be read as it is: nothing is written.
    open spec fn input_writes(&self) -> Seq<Write> {
        Seq::empty()
    }

    /// The output latch is written while the line is still an input, and the
    /// line is made an output after that: from the moment it drives its pad,
    /// it drives `level`.
    open spec fn output_writes(&self, level: Level) -> Seq<Write> {
        GpioView::bridge_writes(self.id(), level, Output::<Otype>::mode())
    }

    fn into_input_pin(self, hw: &mut Gpio) -> (r: Result<Self, Infallible>) {
        Ok(self)
    }

    fn into_output_pin(self, hw: &mut Gpio, state: PinState) -> (r: Result<
        Pin<P, N, Output<Otype>>,
        Infallible,
    >) {
        let mut pin = self;
        let ghost first = Write { id: pin.id(), setting: Setting::Level(level_of(state)) };
        proof {
            hw@.lemma_apply_one(first);
            hw@.lemma_apply_all_add(
                seq![first],
                GpioView::mode_writes(pin.id(), Output::<Otype>::mode()),
            );
        }
        pin._set_state(hw, into_state(state));
        Ok(pin.into_mode(hw))
    }
}

// Implementations for `ErasedPin`
impl<MODE> ErrorType for ErasedPin<MODE> {
    type Error = Infallible;
}

impl<MODE> OutputPin for ErasedPin<Output<MODE>> {
    open spec fn can_write(&self) -> bool {
        true
    }

    fn set_high(&mut self, hw: &mut Gpio) -> (r: Result<(), Self::Error>) {
        self.set_high(hw);
        Ok(())
    }

    fn set_low(&mut self, hw: &mut Gpio) -> (r: Result<(), Self::Error>) {
        self.set_low(hw);
        Ok(())
    }
}

impl<MODE> StatefulOutputPin for ErasedPin<Output<MODE>> {
    fn is_set_high(&self, hw: &Gpio) -> (r: Result<bool, Self::Error>) {
        Ok(self.is_set_high(hw))
    }

    fn is_set_low(&self, hw: &Gpio) -> (r: Result<bool, Self::Error>) {
        Ok(self.is_set_low(hw))
    }
}

impl<MODE> ToggleableOutputPin for ErasedPin<Output<MODE>> {
    fn toggle(&mut self, hw: &mut Gpio) -> (r: Result<(), Self::Error>) {
        self.toggle(hw);
        Ok(())
    }
}

impl<MODE> InputPin for ErasedPin<MODE> where MODE: marker::Readable {
    open spec fn can_read(&self) -> bool {
        true
    }

    fn is_high(&self, hw: &Gpio) -> (r: Result<bool, Self::Error>) {
        Ok(self.is_high(hw))
    }

    fn is_low(&self, hw: &Gpio) -> (r: Result<bool, Self::Error>) {
        Ok(self.is_low(hw))
    }
}

// Implementations for `PartiallyErasedPin`
impl<const P: u8, MODE> ErrorType for PartiallyErasedPin<P, MODE> {
    type Error = Infallible;
}

impl<const P: u8, MODE> OutputPin for PartiallyErasedPin<P, Output<MODE>> {
    open spec fn can_write(&self) -> bool {
        true
    }

    fn set_high(&mut self, hw: &mut Gpio) -> (r: Result<(), Self::Error>) {
        self.set_high(hw);
        Ok(())
    }

    fn set_low(&mut self, hw: &mut Gpio) -> (r: Result<(), Self::Error>) {
        self.set_low(hw);
        Ok(())
    }
}

impl<const P: u8, MODE> StatefulOutputPin for PartiallyErasedPin<P, Output<MODE>> {
    fn is_set_high(&self, hw: &Gpio) -> (r: Result<bool, Self::Error>) {
        Ok(self.is_set_high(hw))
    }

    fn is_set_low(&self, hw: &Gpio) -> (r: Result<bool, Self::Error>) {
        Ok(self.is_set_low(hw))
    }
}

impl<const P: u8, MODE> ToggleableOutputPin for PartiallyErasedPin<P, Output<MODE>> {
    fn toggle(&mut self, hw: &mut Gpio) -> (r: Result<(), Self::Error>) {
        self.toggle(hw);
        Ok(())
    }
}

impl<const P: u8, MODE> InputPin for PartiallyErasedPin<P, MODE> where MODE: marker::Readable {
    open spec fn can_read(&self) -> bool {
        true
    }

    fn is_high(&self, hw: &Gpio) -> (r: Result<bool, Self::Error>) {
        Ok(self.is_high(hw))
    }

    fn is_low(&self, hw: &Gpio) -> (r: Result<bool, Self::Error>) {
        Ok(self.is_low(hw))
    }
}

// Implementations for `DynamicPin`
impl<const P: u8, const N: u8> ErrorType for DynamicPin<P, N> {
    type Error = PinModeError;
}

impl<const P: u8, const N: u8> OutputPin for DynamicPin<P, N> {
    open spec fn can_write(&self) -> bool {
        self.mode().is_output()
    }

    fn set_high(&mut self, hw: &mut Gpio) -> (r: Result<(), Self::Error>)
        ensures
            r is Err ==> r == Err::<(), PinModeError>(PinModeError::IncorrectMode),
    {
        self.set_high(hw)
    }

    fn set_low(&mut self, hw: &mut Gpio) -> (r: Result<(), Self::Error>)
        ensures
            r is Err ==> r == Err::<(), PinModeError>(PinModeError::IncorrectMode),
    {
        self.set_low(hw)
    }
}

impl<const P: u8, const N: u8> InputPin for DynamicPin<P, N> {
    open spec fn can_read(&self) -> bool {
        self.mode().is_readable()
    }

    fn is_high(&self, hw: &Gpio) -> (r: Result<bool, Self::Error>)
        ensures
            r is Err ==> r == Err::<bool, PinModeError>(PinModeError::IncorrectMode),
    {
        self.is_high(hw)
    }

    fn is_low(&self, hw: &Gpio) -> (r: Result<bool, Self::Error>)
        ensures
            r is Err ==> r == Err::<bool, PinModeError>(PinModeError::IncorrectMode),
    {
        self.is_low(hw)
    }
}

} // verus!
