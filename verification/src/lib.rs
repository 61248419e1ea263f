//! Handles for the I/O lines of a microcontroller.
//!
//! Every line has one handle. The type of a handle says what the line is
//! configured for, so a handle offers only the operations that its line
//! supports. Handles that have given up a part of their type check at run
//! time what they no longer know at compile time.

pub mod gpio;
pub mod i2s;
pub mod rcc;
pub mod spi;
pub mod time;
