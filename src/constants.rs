//! Values that the wiringPi library takes or hands back, with the integer
//! code that each stands for on the native side.
use vstd::prelude::*;

verus! {

/// Mode of a GPIO pin as the native library numbers it.
#[derive(Debug, Clone, Copy, PartialEq, Eq, Structural)]
pub enum PinModes {
    Input,
    Output,
    PwmOutput,
    GpioClock,
}

impl PinModes {
    pub open spec fn spec_code(self) -> i32 {
        match self {
            PinModes::Input => 0,
            PinModes::Output => 1,
            PinModes::PwmOutput => 2,
            PinModes::GpioClock => 3,
        }
    }

    /// Native code of the mode.
    pub fn code(&self) -> (r: i32)
        ensures
            r == self.spec_code(),
    {
        match self {
            PinModes::Input => 0,
            PinModes::Output => 1,
            PinModes::PwmOutput => 2,
            PinModes::GpioClock => 3,
        }
    }
}

/// Possible values to write to, or read from, a digital pin.
#[derive(Debug, Clone, Copy, PartialEq, Eq, Structural)]
pub enum DigitalOut {
    Low,
    High,
}

impl DigitalOut {
    pub open spec fn spec_code(self) -> i32 {
        match self {
            DigitalOut::Low => 0,
            DigitalOut::High => 1,
        }
    }

    /// The level that a native read result stands for: zero is low, anything
    /// else is high.
    pub open spec fn spec_from_level(val: i32) -> DigitalOut {
        if val == 0 {
            DigitalOut::Low
        } else {
            DigitalOut::High
        }
    }

    /// Native code of the level.
    pub fn code(&self) -> (r: i32)
        ensures
            r == self.spec_code(),
    {
        match self {
            DigitalOut::Low => 0,
            DigitalOut::High => 1,
        }
    }
}

impl From<i32> for DigitalOut {
    fn from(val: i32) -> (r: DigitalOut)
        ensures
            r == DigitalOut::spec_from_level(val),
    {
        if val == 0 {
            DigitalOut::Low
        } else {
            DigitalOut::High
        }
    }
}

impl vstd::std_specs::convert::FromSpecImpl<i32> for DigitalOut {
    open spec fn obeys_from_spec() -> bool {
        true
    }

    open spec fn from_spec(val: i32) -> DigitalOut {
        DigitalOut::spec_from_level(val)
    }
}

/// Resistor mode to specify for an input pin.
#[derive(Debug, Clone, Copy, PartialEq, Eq, Structural)]
pub enum ResistorMode {
    /// No pull up or pull down
    NoPull,
    /// Pull to ground
    PullDown,
    /// Pull to *VDD* (3.3V)
    PullUp,
}

impl ResistorMode {
    pub open spec fn spec_code(self) -> i32 {
        match self {
            ResistorMode::NoPull => 0,
            ResistorMode::PullDown => 1,
            ResistorMode::PullUp => 2,
        }
    }

    /// Native code of the resistor mode.
    pub fn code(&self) -> (r: i32)
        ensures
            r == self.spec_code(),
    {
        match self {
            ResistorMode::NoPull => 0,
            ResistorMode::PullDown => 1,
            ResistorMode::PullUp => 2,
        }
    }
}

/// Possible modes that the PWM generator can be run in.
#[derive(Debug, Clone, Copy, PartialEq, Eq, Structural)]
pub enum PwmMode {
    /// Default mode of the PWM on the Raspberry Pi
    MarkSpace,
    Balanced,
}

impl PwmMode {
    pub open spec fn spec_code(self) -> i32 {
        match self {
            PwmMode::MarkSpace => 0,
            PwmMode::Balanced => 1,
        }
    }

    /// Native code of the PWM mode.
    pub fn code(&self) -> (r: i32)
        ensures
            r == self.spec_code(),
    {
        match self {
            PwmMode::MarkSpace => 0,
            PwmMode::Balanced => 1,
        }
    }
}

/// Edge of the signal on which an interrupt fires.
#[derive(Debug, Clone, Copy, PartialEq, Eq, Structural)]
pub enum InterruptEdgeType {
    EdgeSetup,
    FallingEdge,
    RisingEdge,
    BothEdges,
}

impl InterruptEdgeType {
    pub open spec fn spec_code(self) -> i32 {
        match self {
            InterruptEdgeType::EdgeSetup => 0,
            InterruptEdgeType::FallingEdge => 1,
            InterruptEdgeType::RisingEdge => 2,
            InterruptEdgeType::BothEdges => 3,
        }
    }

    /// Native code of the edge type.
    pub fn code(&self) -> (r: i32)
        ensures
            r == self.spec_code(),
    {
        match self {
            InterruptEdgeType::EdgeSetup => 0,
            InterruptEdgeType::FallingEdge => 1,
            InterruptEdgeType::RisingEdge => 2,
            InterruptEdgeType::BothEdges => 3,
        }
    }
}

} // verus!
