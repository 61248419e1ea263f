//! Handles whose mode is a run-time value.
//!
//! A `DynamicPin` checks its mode before it acts: an operation that the mode
//! does not allow fails with `PinModeError` and leaves the bank untouched.

use vstd::prelude::*;
use crate::gpio::{Gpio, Level, LineId, Mode, OutputType, PinExt, LINES_PER_PORT, PORT_COUNT};

verus! {

/// The modes that a `DynamicPin` can be in.
#[derive(Clone, Copy, PartialEq, Eq, Structural, Debug)]
pub enum Dynamic {
    Input,
    OutputPushPull,
    OutputOpenDrain,
    Analog,
}

/// An operation was asked of a line whose mode does not allow it.
#[derive(Clone, Copy, PartialEq, Eq, Structural, Debug)]
pub enum PinModeError {
    IncorrectMode,
}

impl Dynamic {
    /// The electrical configuration that the mode stands for.
    pub open spec fn spec_mode(self) -> Mode {
        match self {
            Dynamic::Input => Mode::Input,
            Dynamic::OutputPushPull => Mode::Output(OutputType::PushPull),
            Dynamic::OutputOpenDrain => Mode::Output(OutputType::OpenDrain),
            Dynamic::Analog => Mode::Analog,
        }
    }

    /// The electrical configuration that the mode stands for.
    #[verifier::when_used_as_spec(spec_mode)]
    pub fn mode(self) -> (m: Mode)
        ensures
            m == self.spec_mode(),
            m.valid(),
    {
        match self {
            Dynamic::Input => Mode::Input,
            Dynamic::OutputPushPull => Mode::Output(OutputType::PushPull),
            Dynamic::OutputOpenDrain => Mode::Output(OutputType::OpenDrain),
            Dynamic::Analog => Mode::Analog,
        }
    }

    /// The mode lets the line be driven: it is one of the two output modes.
    pub open spec fn spec_is_output(self) -> bool {
        self == Dynamic::OutputPushPull || self == Dynamic::OutputOpenDrain
    }

    /// The mode lets the line be driven: it is one of the two output modes.
    #[verifier::when_used_as_spec(spec_is_output)]
    pub fn is_output(self) -> (r: bool)
        ensures
            r == self.spec_is_output(),
    {
        match self {
            Dynamic::OutputPushPull | Dynamic::OutputOpenDrain => true,
            Dynamic::Input | Dynamic::Analog => false,
        }
    }

    /// The mode has a digital level to read: every mode but analog.
    pub open spec fn spec_is_readable(self) -> bool {
        self != Dynamic::Analog
    }

    /// The mode has a digital level to read: every mode but analog.
    #[verifier::when_used_as_spec(spec_is_readable)]
    pub fn is_readable(self) -> (r: bool)
        ensures
            r == self.spec_is_readable(),
    {
        match self {
            Dynamic::Analog => false,
            Dynamic::Input | Dynamic::OutputPushPull | Dynamic::OutputOpenDrain => true,
        }
    }
}

/// Handle of line `N` of port `P`; its mode is a run-time value.
pub struct DynamicPin<const P: u8, const N: u8> {
    mode: Dynamic,
}

impl<const P: u8, const N: u8> PinExt for DynamicPin<P, N> {
    type Mode = Dynamic;

    open spec fn id(&self) -> LineId {
        LineId { port: P, line: N }
    }

    fn pin_id(&self) -> (n: u8) {
        proof {
            use_type_invariant(self);
        }
        N
    }

    fn port_id(&self) -> (p: u8) {
        proof {
            use_type_invariant(self);
        }
        P
    }
}

impl<const P: u8, const N: u8> DynamicPin<P, N> {
    #[verifier::type_invariant]
    spec fn inv(self) -> bool {
        P < PORT_COUNT && N < LINES_PER_PORT
    }

    /// The mode that the handle holds.
    pub closed spec fn spec_mode(&self) -> Dynamic {
        self.mode
    }

    pub(crate) fn new(mode: Dynamic) -> (pin: Self)
        requires
            P < PORT_COUNT,
            N < LINES_PER_PORT,
        ensures
            pin.mode() == mode,
    {
        DynamicPin { mode }
    }

    /// The line that the handle stands for, as a value.
    pub fn line_id(&self) -> (id: LineId)
        ensures
            id == self.id(),
            id.valid(),
    {
        proof {
            use_type_invariant(self);
        }
        LineId { port: P, line: N }
    }

    /// The mode that the handle holds.
    #[verifier::when_used_as_spec(spec_mode)]
    pub fn mode(&self) -> (mode: Dynamic)
        ensures
            mode == self.spec_mode(),
    {
        self.mode
    }

    /// Puts the line into `mode`. This is allowed from every mode.
    pub fn set_mode(&mut self, hw: &mut Gpio, mode: Dynamic)
        ensures
            final(self).mode() == mode,
            final(self).id() == old(self).id(),
            final(hw)@ == old(hw)@.configure(old(self).id(), mode.mode()),
            final(hw)@.mode(old(self).id()) == mode.mode(),
    {
        let id = self.line_id();
        proof {
            hw@.lemma_configure(id, mode.mode());
        }
        hw.configure(id, mode.mode());
        self.mode = mode;
    }

    /// Drives the line to `state` if it is an output. Otherwise fails and
    /// writes nothing.
    pub fn set_state(&mut self, hw: &mut Gpio, state: Level) -> (r: Result<(), PinModeError>)
        ensures
            *final(self) == *old(self),
            r == (if old(self).mode().is_output() {
                Ok::<(), PinModeError>(())
            } else {
                Err(PinModeError::IncorrectMode)
            }),
            final(hw)@ == (if r is Ok {
                old(hw)@.drive(old(self).id(), state)
            } else {
                old(hw)@
            }),
    {
        if self.mode.is_output() {
            hw.drive(self.line_id(), state);
            Ok(())
        } else {
            Err(PinModeError::IncorrectMode)
        }
    }

    /// Drives the line high if it is an output. Otherwise fails and writes
    /// nothing.
    pub fn set_high(&mut self, hw: &mut Gpio) -> (r: Result<(), PinModeError>)
        ensures
            *final(self) == *old(self),
            r == (if old(self).mode().is_output() {
                Ok::<(), PinModeError>(())
            } else {
                Err(PinModeError::IncorrectMode)
            }),
            final(hw)@ == (if r is Ok {
                old(hw)@.drive(old(self).id(), Level::High)
            } else {
                old(hw)@
            }),
    {
        self.set_state(hw, Level::High)
    }

    /// Drives the line low if it is an output. Otherwise fails and writes
    /// nothing.
    pub fn set_low(&mut self, hw: &mut Gpio) -> (r: Result<(), PinModeError>)
        ensures
            *final(self) == *old(self),
            r == (if old(self).mode().is_output() {
                Ok::<(), PinModeError>(())
            } else {
                Err(PinModeError::IncorrectMode)
            }),
            final(hw)@ == (if r is Ok {
                old(hw)@.drive(old(self).id(), Level::Low)
            } else {
                old(hw)@
            }),
    {
        self.set_state(hw, Level::Low)
    }

    /// Whether the level at the pad is high, if the mode has a digital level
    /// to read. Otherwise fails.
    pub fn is_high(&self, hw: &Gpio) -> (r: Result<bool, PinModeError>)
        ensures
            r == (if self.mode().is_readable() {
                Ok::<bool, PinModeError>(hw@.input(self.id()) == Level::High)
            } else {
                Err(PinModeError::IncorrectMode)
            }),
    {
        match self.is_low(hw) {
            Ok(low) => Ok(!low),
            Err(e) => Err(e),
        }
    }

    /// Whether the level at the pad is low, if the mode has a digital level
    /// to read. Otherwise fails.
    pub fn is_low(&self, hw: &Gpio) -> (r: Result<bool, PinModeError>)
        ensures
            r == (if self.mode().is_readable() {
                Ok::<bool, PinModeError>(hw@.input(self.id()) == Level::Low)
            } else {
                Err(PinModeError::IncorrectMode)
            }),
    {
        if self.mode.is_readable() {
            match hw.input(self.line_id()) {
                Level::Low => Ok(true),
                Level::High => Ok(false),
            }
        } else {
            Err(PinModeError::IncorrectMode)
        }
    }
}

} // verus!
