//! Capabilities of mode tags.

use vstd::prelude::*;
use crate::gpio::{Analog, Input, OpenDrain, Output};

verus! {

/// Modes in which the level at the pad can be read.
pub trait Readable {

}

/// Modes that a line can leave for an alternate function and come back to.
pub trait NotAlt {

}

impl Readable for Input {

}

impl Readable for Output<OpenDrain> {

}

impl NotAlt for Input {

}

impl<Otype> NotAlt for Output<Otype> {

}

impl NotAlt for Analog {

}

} // verus!
