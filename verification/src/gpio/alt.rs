//! Lines lent to peripherals.
//!
//! A peripheral takes the handles of the lines it needs and routes them to
//! itself. `PinA` says which line can play which part for which peripheral,
//! and through which multiplexer setting; `SetAlternate` makes the route.

use vstd::prelude::*;
use crate::gpio::{
    marker, Alternate, Gpio, GpioView, OpenDrain, Pin, PinExt, PinMode, PushPull, Write,
};

verus! {

/// A multiplexer setting, as a type.
pub struct Const<const A: u8>;

/// Stands in a set of lines for a part that no line plays.
pub struct NoPin;

/// The handle can play part `PIN` for peripheral `PER`, through the
/// multiplexer setting `A`.
pub trait PinA<PIN, PER> {
    type A;
}

impl<PIN, PER> PinA<PIN, PER> for NoPin {
    type A = Const<0>;
}

/// The handle can route its line through multiplexer setting `A` with output
/// stage `Otype`, and bring it back to the mode of its tag.
pub trait SetAlternate<Otype, const A: u8>: Sized {
    /// The register writes that `set_alt_mode` makes, in order.
    spec fn alt_writes(&self) -> Seq<Write>;

    /// The register writes that `restore_mode` makes, in order.
    spec fn restore_writes(&self) -> Seq<Write>;

    /// Routes the line to the peripheral. The tag of the handle stays: the
    /// owner keeps the handle while the line is lent.
    fn set_alt_mode(&mut self, hw: &mut Gpio)
        ensures
            *final(self) == *old(self),
            final(hw)@ == old(hw)@.apply_all(old(self).alt_writes()),
    ;

    /// Brings the line back to the mode of the handle's tag.
    fn restore_mode(&mut self, hw: &mut Gpio)
        ensures
            *final(self) == *old(self),
            final(hw)@ == old(hw)@.apply_all(old(self).restore_writes()),
    ;
}

impl<Otype> SetAlternate<Otype, 0> for NoPin {
    open spec fn alt_writes(&self) -> Seq<Write> {
        Seq::empty()
    }

    open spec fn restore_writes(&self) -> Seq<Write> {
        Seq::empty()
    }

    fn set_alt_mode(&mut self, hw: &mut Gpio) {
    }

    fn restore_mode(&mut self, hw: &mut Gpio) {
    }
}

impl<const P: u8, const N: u8, MODE: marker::NotAlt + PinMode, const A: u8> SetAlternate<
    PushPull,
    A,
> for Pin<P, N, MODE> {
    open spec fn alt_writes(&self) -> Seq<Write> {
        GpioView::mode_writes(self.id(), Alternate::<A, PushPull>::mode())
    }

    open spec fn restore_writes(&self) -> Seq<Write> {
        GpioView::mode_writes(self.id(), MODE::mode())
    }

    fn set_alt_mode(&mut self, hw: &mut Gpio) {
        self.mode::<Alternate<A, PushPull>>(hw);
    }

    fn restore_mode(&mut self, hw: &mut Gpio) {
        self.mode::<MODE>(hw);
    }
}

impl<const P: u8, const N: u8, MODE: marker::NotAlt + PinMode, const A: u8> SetAlternate<
    OpenDrain,
    A,
> for Pin<P, N, MODE> {
    open spec fn alt_writes(&self) -> Seq<Write> {
        GpioView::mode_writes(self.id(), Alternate::<A, OpenDrain>::mode())
    }

    open spec fn restore_writes(&self) -> Seq<Write> {
        GpioView::mode_writes(self.id(), MODE::mode())
    }

    fn set_alt_mode(&mut self, hw: &mut Gpio) {
        self.mode::<Alternate<A, OpenDrain>>(hw);
    }

    fn restore_mode(&mut self, hw: &mut Gpio) {
        self.mode::<MODE>(hw);
    }
}

impl<const P: u8, const N: u8, const A: u8> SetAlternate<PushPull, A> for Pin<
    P,
    N,
    Alternate<A, PushPull>,
> {
    /// The line is routed already: nothing is written.
    open spec fn alt_writes(&self) -> Seq<Write> {
        Seq::empty()
    }

    open spec fn restore_writes(&self) -> Seq<Write> {
        Seq::empty()
    }

    fn set_alt_mode(&mut self, hw: &mut Gpio) {
    }

    fn restore_mode(&mut self, hw: &mut Gpio) {
    }
}

impl<const P: u8, const N: u8, const A: u8> SetAlternate<OpenDrain, A> for Pin<
    P,
    N,
    Alternate<A, OpenDrain>,
> {
    /// The line is routed already: nothing is written.
    open spec fn alt_writes(&self) -> Seq<Write> {
        Seq::empty()
    }

    open spec fn restore_writes(&self) -> Seq<Write> {
        Seq::empty()
    }

    fn set_alt_mode(&mut self, hw: &mut Gpio) {
    }

    fn restore_mode(&mut self, hw: &mut Gpio) {
    }
}

} // verus!
