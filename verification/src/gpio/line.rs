//! Plain values that describe one I/O line: which line it is, how it is
//! configured, which level it drives and which level it samples.

use vstd::prelude::*;

verus! {

/// Number of ports in the bank. Port 0 is port A.
pub const PORT_COUNT: u8 = 11;

/// Number of lines on each port.
pub const LINES_PER_PORT: u8 = 16;

/// Number of multiplexer settings a line in alternate-function mode can select.
pub const ALTERNATE_COUNT: u8 = 16;

/// Logic level of a line.
#[derive(Clone, Copy, PartialEq, Eq, Structural, Debug)]
pub enum Level {
    Low,
    High,
}

impl Level {
    /// The opposite level.
    pub open spec fn spec_inverted(self) -> Level {
        match self {
            Level::Low => Level::High,
            Level::High => Level::Low,
        }
    }

    /// The opposite level.
    #[verifier::when_used_as_spec(spec_inverted)]
    pub fn inverted(self) -> (r: Level)
        ensures
            r == self.spec_inverted(),
    {
        match self {
            Level::Low => Level::High,
            Level::High => Level::Low,
        }
    }

    /// `High` for `true`, `Low` for `false`.
    pub open spec fn spec_from_bit(b: bool) -> Level {
        if b {
            Level::High
        } else {
            Level::Low
        }
    }

    /// `High` for `true`, `Low` for `false`.
    #[verifier::when_used_as_spec(spec_from_bit)]
    pub fn from_bit(b: bool) -> (r: Level)
        ensures
            r == Level::spec_from_bit(b),
    {
        if b {
            Level::High
        } else {
            Level::Low
        }
    }

    /// Whether the level is `High`.
    pub open spec fn spec_is_high(self) -> bool {
        self == Level::High
    }

    /// Whether the level is `High`.
    #[verifier::when_used_as_spec(spec_is_high)]
    pub fn is_high(self) -> (r: bool)
        ensures
            r == self.spec_is_high(),
    {
        match self {
            Level::Low => false,
            Level::High => true,
        }
    }
}

/// How an output stage drives its line.
#[derive(Clone, Copy, PartialEq, Eq, Structural, Debug)]
pub enum OutputType {
    /// Drives both levels.
    PushPull,
    /// Drives low only; high is left to a pull-up.
    OpenDrain,
}

/// What a line is connected to inside the chip.
#[derive(Clone, Copy, PartialEq, Eq, Structural, Debug)]
pub enum Function {
    Input,
    Output,
    Alternate,
    Analog,
}

/// Electrical configuration of a line.
#[derive(Clone, Copy, PartialEq, Eq, Structural, Debug)]
pub enum Mode {
    /// Digital input.
    Input,
    /// General-purpose output with the given output stage.
    Output(OutputType),
    /// Routed to a peripheral through the given multiplexer setting.
    Alternate(u8, OutputType),
    /// Analog; the digital input path is off.
    Analog,
}

impl Mode {
    /// A mode that the hardware can take: the multiplexer setting exists.
    pub open spec fn valid(self) -> bool {
        match self {
            Mode::Alternate(af, _) => af < ALTERNATE_COUNT,
            _ => true,
        }
    }

    /// The line drives its pad from the output latch.
    pub open spec fn is_output(self) -> bool {
        self is Output
    }
}

/// Identity of a physical line: its port and its number on that port.
#[derive(Clone, Copy, PartialEq, Eq, Structural, Debug)]
pub struct LineId {
    pub port: u8,
    pub line: u8,
}

impl LineId {
    /// The line exists in the bank.
    pub open spec fn valid(self) -> bool {
        self.port < PORT_COUNT && self.line < LINES_PER_PORT
    }

    /// The identity of line `line` on port `port`, if there is such a line.
    pub fn new(port: u8, line: u8) -> (r: Option<LineId>)
        ensures
            r == (if port < PORT_COUNT && line < LINES_PER_PORT {
                Some(LineId { port, line })
            } else {
                None
            }),
    {
        if port < PORT_COUNT && line < LINES_PER_PORT {
            Some(LineId { port, line })
        } else {
            None
        }
    }
}

/// Everything the hardware holds about one line.
#[derive(Clone, Copy, PartialEq, Eq, Structural, Debug)]
pub struct LineState {
    /// What the line is connected to.
    pub function: Function,
    /// The output stage, used while the line is an output or routed to a peripheral.
    pub otype: OutputType,
    /// The multiplexer setting, used while the line is routed to a peripheral.
    pub alt: u8,
    /// The level held in the output latch.
    pub output: Level,
    /// The level last sampled at the pad.
    pub input: Level,
}

impl LineState {
    /// A line after reset: a digital input, with the output latch low.
    pub open spec fn reset() -> LineState {
        LineState {
            function: Function::Input,
            otype: OutputType::PushPull,
            alt: 0,
            output: Level::Low,
            input: Level::Low,
        }
    }

    /// The electrical configuration that the stored fields amount to.
    pub open spec fn spec_mode(self) -> Mode {
        match self.function {
            Function::Input => Mode::Input,
            Function::Output => Mode::Output(self.otype),
            Function::Alternate => Mode::Alternate(self.alt, self.otype),
            Function::Analog => Mode::Analog,
        }
    }

    /// The electrical configuration that the stored fields amount to.
    #[verifier::when_used_as_spec(spec_mode)]
    pub fn mode(self) -> (m: Mode)
        ensures
            m == self.spec_mode(),
    {
        match self.function {
            Function::Input => Mode::Input,
            Function::Output => Mode::Output(self.otype),
            Function::Alternate => Mode::Alternate(self.alt, self.otype),
            Function::Analog => Mode::Analog,
        }
    }

    /// The line with one field replaced.
    pub open spec fn with(self, setting: Setting) -> LineState {
        match setting {
            Setting::Level(level) => LineState { output: level, ..self },
            Setting::OutputType(otype) => LineState { otype, ..self },
            Setting::Alternate(alt) => LineState { alt, ..self },
            Setting::Function(function) => LineState { function, ..self },
        }
    }
}

/// One field of a line, with the value to store in it.
#[derive(Clone, Copy, PartialEq, Eq, Structural, Debug)]
pub enum Setting {
    /// The output latch.
    Level(Level),
    /// The output stage.
    OutputType(OutputType),
    /// The multiplexer setting.
    Alternate(u8),
    /// What the line is connected to.
    Function(Function),
}

impl Setting {
    /// The value fits the field.
    pub open spec fn valid(self) -> bool {
        match self {
            Setting::Alternate(alt) => alt < ALTERNATE_COUNT,
            _ => true,
        }
    }
}

/// One register write: a field of one line set to a value.
#[derive(Clone, Copy, PartialEq, Eq, Structural, Debug)]
pub struct Write {
    pub id: LineId,
    pub setting: Setting,
}

impl Write {
    /// The line exists and the value fits the field.
    pub open spec fn valid(self) -> bool {
        self.id.valid() && self.setting.valid()
    }
}

} // verus!
