//! The serial peripherals and the parts that lines play for them.

use vstd::prelude::*;
use crate::gpio::{Const, Pin, PinA};

verus! {

/// The first serial peripheral, on the second peripheral bus.
pub struct Spi1;

/// The second serial peripheral, on the first peripheral bus.
pub struct Spi2;

/// The third serial peripheral, on the first peripheral bus.
pub struct Spi3;

/// The part of the clock line.
pub struct Sck;

/// The part of the line that carries data from the slave.
pub struct Miso;

/// The part of the line that carries data from the master.
pub struct Mosi;

/// The part of the slave-select line.
pub struct Nss;

// Port A is port 0, port B is port 1, port C is port 2.
impl<MODE> PinA<Nss, Spi1> for Pin<0, 4, MODE> {
    type A = Const<5>;
}

impl<MODE> PinA<Nss, Spi1> for Pin<0, 15, MODE> {
    type A = Const<5>;
}

impl<MODE> PinA<Sck, Spi1> for Pin<0, 5, MODE> {
    type A = Const<5>;
}

impl<MODE> PinA<Sck, Spi1> for Pin<1, 3, MODE> {
    type A = Const<5>;
}

impl<MODE> PinA<Miso, Spi1> for Pin<0, 6, MODE> {
    type A = Const<5>;
}

impl<MODE> PinA<Mosi, Spi1> for Pin<0, 7, MODE> {
    type A = Const<5>;
}

impl<MODE> PinA<Mosi, Spi1> for Pin<1, 5, MODE> {
    type A = Const<5>;
}

impl<MODE> PinA<Nss, Spi2> for Pin<1, 9, MODE> {
    type A = Const<5>;
}

impl<MODE> PinA<Nss, Spi2> for Pin<1, 12, MODE> {
    type A = Const<5>;
}

impl<MODE> PinA<Sck, Spi2> for Pin<1, 10, MODE> {
    type A = Const<5>;
}

impl<MODE> PinA<Sck, Spi2> for Pin<1, 13, MODE> {
    type A = Const<5>;
}

impl<MODE> PinA<Miso, Spi2> for Pin<1, 14, MODE> {
    type A = Const<5>;
}

impl<MODE> PinA<Mosi, Spi2> for Pin<1, 15, MODE> {
    type A = Const<5>;
}

impl<MODE> PinA<Mosi, Spi2> for Pin<2, 3, MODE> {
    type A = Const<5>;
}

impl<MODE> PinA<Nss, Spi3> for Pin<0, 4, MODE> {
    type A = Const<6>;
}

impl<MODE> PinA<Nss, Spi3> for Pin<0, 15, MODE> {
    type A = Const<6>;
}

impl<MODE> PinA<Sck, Spi3> for Pin<1, 3, MODE> {
    type A = Const<6>;
}

impl<MODE> PinA<Sck, Spi3> for Pin<2, 10, MODE> {
    type A = Const<6>;
}

impl<MODE> PinA<Miso, Spi3> for Pin<2, 11, MODE> {
    type A = Const<6>;
}

impl<MODE> PinA<Mosi, Spi3> for Pin<1, 5, MODE> {
    type A = Const<6>;
}

impl<MODE> PinA<Mosi, Spi3> for Pin<2, 12, MODE> {
    type A = Const<6>;
}

} // verus!
