//! GPIO pins: a handle that records the pin's mode and checks each operation
//! against it and against the process configuration, and handles fixed to one
//! mode.
use vstd::prelude::*;

use crate::call::HwCall;
use crate::constants::{DigitalOut, PinModes, ResistorMode};
use crate::status::ErrorKind;
use crate::{allows_changes, check_changes_allowed, WiringPiConfiguration};

verus! {

/// Mode of a pin as the library records it: an input carries its resistor
/// mode.
#[derive(Debug, Clone, Copy, PartialEq, Eq, Structural)]
pub enum Mode {
    Input(ResistorMode),
    Output,
    PwmOutput,
    ClockOutput,
}

impl Mode {
    pub open spec fn spec_pin_mode(self) -> PinModes {
        match self {
            Mode::Input(_) => PinModes::Input,
            Mode::Output => PinModes::Output,
            Mode::PwmOutput => PinModes::PwmOutput,
            Mode::ClockOutput => PinModes::GpioClock,
        }
    }

    /// The native pin mode, without the resistor mode.
    pub fn pin_mode(&self) -> (r: PinModes)
        ensures
            r == self.spec_pin_mode(),
    {
        match self {
            Mode::Input(_) => PinModes::Input,
            Mode::Output => PinModes::Output,
            Mode::PwmOutput => PinModes::PwmOutput,
            Mode::ClockOutput => PinModes::GpioClock,
        }
    }
}

/// Requests that put pin `number` in `mode`: the pin mode, then, for an input,
/// its resistor mode.
pub open spec fn mode_calls(number: u8, mode: Mode) -> Seq<HwCall> {
    let set = HwCall::PinMode { pin: number as i32, mode: mode.spec_pin_mode().spec_code() };
    match mode {
        Mode::Input(res) => seq![set, HwCall::PullUpDnControl { pin: number as i32, pud: res.spec_code() }],
        _ => seq![set],
    }
}

/// What a [`Pin`] is: its number, the process configuration and its recorded
/// mode.
pub struct PinState {
    pub number: u8,
    pub config: WiringPiConfiguration,
    pub mode: Mode,
}

impl PinState {
    /// Outcome of setting the mode: refused under `Sys`, else the new state
    /// and the requests that apply the mode.
    pub open spec fn set_mode(self, mode: Mode) -> Result<(PinState, Seq<HwCall>), ErrorKind> {
        if !allows_changes(self.config) {
            Err(ErrorKind::ConfigurationError)
        } else {
            Ok((PinState { mode, ..self }, mode_calls(self.number, mode)))
        }
    }

    /// Outcome of setting the resistor mode: refused under `Sys`, refused for
    /// a pin that is not an input, else the new state and the request.
    pub open spec fn set_resistor_mode(self, res: ResistorMode) -> Result<
        (PinState, HwCall),
        ErrorKind,
    > {
        if !allows_changes(self.config) {
            Err(ErrorKind::ConfigurationError)
        } else if !(self.mode is Input) {
            Err(ErrorKind::IllegalModeError)
        } else {
            Ok(
                (
                    PinState { mode: Mode::Input(res), ..self },
                    HwCall::PullUpDnControl { pin: self.number as i32, pud: res.spec_code() },
                ),
            )
        }
    }

    /// Outcome of a digital write: allowed on an output only.
    pub open spec fn digital_write(self, value: DigitalOut) -> Result<HwCall, ErrorKind> {
        if self.mode == Mode::Output {
            Ok(HwCall::DigitalWrite { pin: self.number as i32, value: value.spec_code() })
        } else {
            Err(ErrorKind::IllegalModeError)
        }
    }
}

/// Structure representing a physical GPIO pin on the Raspberry Pi, with the
/// mode most recently applied to it.
#[derive(Debug)]
pub struct Pin {
    number: u8,
    config: WiringPiConfiguration,
    mode: Mode,
}

impl View for Pin {
    type V = PinState;

    closed spec fn view(&self) -> PinState {
        PinState { number: self.number, config: self.config, mode: self.mode }
    }
}

impl Pin {
    /// A handle on pin `number` under `config`, in the `Output` mode.
    pub fn new(number: u8, config: WiringPiConfiguration) -> (r: Pin)
        ensures
            r@ == (PinState { number, config, mode: Mode::Output }),
    {
        Pin { number, config, mode: Mode::Output }
    }

    pub fn number(&self) -> (r: u8)
        ensures
            r == self@.number,
    {
        self.number
    }

    pub fn config(&self) -> (r: WiringPiConfiguration)
        ensures
            r == self@.config,
    {
        self.config
    }

    pub fn mode(&self) -> (r: Mode)
        ensures
            r == self@.mode,
    {
        self.mode
    }

    /// Fails with [`ErrorKind::ConfigurationError`] under the `Sys`
    /// configuration, where pin modes can only be changed with the `gpio`
    /// program before the software starts.
    pub fn check_config(&self) -> (r: Result<(), ErrorKind>)
        ensures
            allows_changes(self@.config) ==> r == Ok::<(), ErrorKind>(()),
            !allows_changes(self@.config) ==> r == Err::<(), ErrorKind>(ErrorKind::ConfigurationError),
    {
        check_changes_allowed(self.config)
    }

    /// Sets the mode of the pin. On success the recorded mode is `mode` and
    /// the requests that apply it are returned, in order; on failure nothing
    /// changes.
    pub fn set_mode(&mut self, mode: Mode) -> (r: Result<Vec<HwCall>, ErrorKind>)
        ensures
            match old(self)@.set_mode(mode) {
                Ok((state, calls)) => final(self)@ == state && r is Ok && r->Ok_0@ == calls,
                Err(e) => final(self)@ == old(self)@ && r == Err::<Vec<HwCall>, ErrorKind>(e),
            },
    {
        match self.check_config() {
            Err(e) => Err(e),
            Ok(()) => {
                let pin = self.number as i32;
                let mut calls: Vec<HwCall> = Vec::new();
                calls.push(HwCall::PinMode { pin, mode: mode.pin_mode().code() });
                match mode {
                    Mode::Input(res) => {
                        calls.push(HwCall::PullUpDnControl { pin, pud: res.code() });
                    },
                    _ => {},
                }
                self.mode = mode;
                proof {
                    assert(calls@ =~= mode_calls(self.number, mode));
                }
                Ok(calls)
            },
        }
    }

    /// Sets the resistor mode of an input pin. On success the recorded mode is
    /// an input with that resistor mode; on failure nothing changes.
    pub fn set_resistor_mode(&mut self, res: ResistorMode) -> (r: Result<HwCall, ErrorKind>)
        ensures
            match old(self)@.set_resistor_mode(res) {
                Ok((state, call)) => final(self)@ == state && r == Ok::<HwCall, ErrorKind>(call),
                Err(e) => final(self)@ == old(self)@ && r == Err::<HwCall, ErrorKind>(e),
            },
    {
        match self.check_config() {
            Err(e) => Err(e),
            Ok(()) => match self.mode {
                Mode::Input(_) => {
                    self.mode = Mode::Input(res);
                    Ok(HwCall::PullUpDnControl { pin: self.number as i32, pud: res.code() })
                },
                _ => Err(ErrorKind::IllegalModeError),
            },
        }
    }

    /// Writes `value` to the pin, which must be an output.
    pub fn digital_write(&self, value: DigitalOut) -> (r: Result<HwCall, ErrorKind>)
        ensures
            r == self@.digital_write(value),
    {
        match self.mode {
            Mode::Output => Ok(HwCall::DigitalWrite { pin: self.number as i32, value: value.code() }),
            _ => Err(ErrorKind::IllegalModeError),
        }
    }

    /// Request that reads the logic level at the pin; the level it returns is
    /// read with `DigitalOut::from`.
    pub fn digital_read(&self) -> (r: HwCall)
        ensures
            r == (HwCall::DigitalRead { pin: self@.number as i32 }),
    {
        HwCall::DigitalRead { pin: self.number as i32 }
    }

    /// Request that reads the value on the pin as an analog input.
    pub fn analog_read(&self) -> (r: HwCall)
        ensures
            r == (HwCall::AnalogRead { pin: self@.number as i32 }),
    {
        HwCall::AnalogRead { pin: self.number as i32 }
    }

    /// Request that writes the given analog value to the pin.
    pub fn analog_write(&self, value: i32) -> (r: HwCall)
        ensures
            r == (HwCall::AnalogWrite { pin: self@.number as i32, value }),
    {
        HwCall::AnalogWrite { pin: self.number as i32, value }
    }

    /// Writes the given value to the PWM register for the pin. Refused under
    /// the `Sys` configuration.
    pub fn pwm_write(&self, value: u32) -> (r: Result<HwCall, ErrorKind>)
        ensures
            allows_changes(self@.config) ==> r == Ok::<HwCall, ErrorKind>(
                HwCall::PwmWrite { pin: self@.number as i32, value: pwm_register_value(value) },
            ),
            !allows_changes(self@.config) ==> r == Err::<HwCall, ErrorKind>(
                ErrorKind::ConfigurationError,
            ),
    {
        match self.check_config() {
            Err(e) => Err(e),
            Ok(()) => Ok(HwCall::PwmWrite { pin: self.number as i32, value: pwm_register(value) }),
        }
    }

    /// Sets the pin's mode to an input without pull resistor and hands back a
    /// handle fixed to that mode, with the requests that apply it. Refused
    /// under `Sys`, with nothing changed.
    pub fn input(&mut self) -> (r: Result<(InputPin, Vec<HwCall>), ErrorKind>)
        ensures
            match old(self)@.set_mode(Mode::Input(ResistorMode::NoPull)) {
                Ok((state, calls)) => {
                    &&& final(self)@ == state
                    &&& r is Ok
                    &&& r->Ok_0.1@ == calls
                    &&& r->Ok_0.0.spec_number() == old(self)@.number
                    &&& r->Ok_0.0.spec_config() == old(self)@.config
                    &&& r->Ok_0.0.spec_resistor() == ResistorMode::NoPull
                },
                Err(e) => final(self)@ == old(self)@ && r is Err && r->Err_0 == e,
            },
    {
        match self.set_mode(Mode::Input(ResistorMode::NoPull)) {
            Ok(calls) => {
                let pin = InputPin {
                    number: self.number,
                    config: self.config,
                    resistor: ResistorMode::NoPull,
                };
                Ok((pin, calls))
            },
            Err(e) => Err(e),
        }
    }

    /// Sets the pin's mode to `Output` and hands back a handle fixed to that
    /// mode, with the request that applies it. Refused under `Sys`, with
    /// nothing changed.
    pub fn output(&mut self) -> (r: Result<(OutputPin, Vec<HwCall>), ErrorKind>)
        ensures
            match old(self)@.set_mode(Mode::Output) {
                Ok((state, calls)) => {
                    &&& final(self)@ == state
                    &&& r is Ok
                    &&& r->Ok_0.1@ == calls
                    &&& r->Ok_0.0.spec_number() == old(self)@.number
                },
                Err(e) => final(self)@ == old(self)@ && r is Err && r->Err_0 == e,
            },
    {
        match self.set_mode(Mode::Output) {
            Ok(calls) => Ok((OutputPin { number: self.number }, calls)),
            Err(e) => Err(e),
        }
    }

    /// Sets the pin's mode to `PwmOutput` and hands back a handle fixed to
    /// that mode, with the request that applies it. Refused under `Sys`, with
    /// nothing changed.
    pub fn pwm_output(&mut self) -> (r: Result<(PwmOutputPin, Vec<HwCall>), ErrorKind>)
        ensures
            match old(self)@.set_mode(Mode::PwmOutput) {
                Ok((state, calls)) => {
                    &&& final(self)@ == state
                    &&& r is Ok
                    &&& r->Ok_0.1@ == calls
                    &&& r->Ok_0.0.spec_number() == old(self)@.number
                    &&& r->Ok_0.0.spec_config() == old(self)@.config
                },
                Err(e) => final(self)@ == old(self)@ && r is Err && r->Err_0 == e,
            },
    {
        match self.set_mode(Mode::PwmOutput) {
            Ok(calls) => Ok((PwmOutputPin { number: self.number, config: self.config }, calls)),
            Err(e) => Err(e),
        }
    }
}

/// GPIO pin for which the mode has been set to `Input`.
#[derive(Debug)]
pub struct InputPin {
    number: u8,
    config: WiringPiConfiguration,
    resistor: ResistorMode,
}

impl InputPin {
    pub closed spec fn spec_number(&self) -> u8 {
        self.number
    }

    pub closed spec fn spec_config(&self) -> WiringPiConfiguration {
        self.config
    }

    pub fn number(&self) -> (r: u8)
        ensures
            r == self.spec_number(),
    {
        self.number
    }

    /// Request that reads the logic level at the pin; the level it returns is
    /// read with `DigitalOut::from`.
    pub fn digital_read(&self) -> (r: HwCall)
        ensures
            r == (HwCall::DigitalRead { pin: self.spec_number() as i32 }),
    {
        HwCall::DigitalRead { pin: self.number as i32 }
    }

    /// Request that reads the value on the analog input pin.
    pub fn analog_read(&self) -> (r: HwCall)
        ensures
            r == (HwCall::AnalogRead { pin: self.spec_number() as i32 }),
    {
        HwCall::AnalogRead { pin: self.number as i32 }
    }

    /// The resistor mode most recently applied through this handle.
    pub closed spec fn spec_resistor(&self) -> ResistorMode {
        self.resistor
    }

    pub fn resistor(&self) -> (r: ResistorMode)
        ensures
            r == self.spec_resistor(),
    {
        self.resistor
    }

    /// Sets the resistor mode of the pin, which is then recorded. Refused
    /// under the `Sys` configuration, with nothing changed.
    pub fn set_resistor_mode(&mut self, mode: ResistorMode) -> (r: Result<HwCall, ErrorKind>)
        ensures
            final(self).spec_number() == old(self).spec_number(),
            final(self).spec_config() == old(self).spec_config(),
            allows_changes(old(self).spec_config()) ==> {
                &&& r == Ok::<HwCall, ErrorKind>(
                    HwCall::PullUpDnControl {
                        pin: old(self).spec_number() as i32,
                        pud: mode.spec_code(),
                    },
                )
                &&& final(self).spec_resistor() == mode
            },
            !allows_changes(old(self).spec_config()) ==> {
                &&& r == Err::<HwCall, ErrorKind>(ErrorKind::ConfigurationError)
                &&& final(self).spec_resistor() == old(self).spec_resistor()
            },
    {
        match check_changes_allowed(self.config) {
            Ok(()) => {
                self.resistor = mode;
                Ok(HwCall::PullUpDnControl { pin: self.number as i32, pud: mode.code() })
            },
            Err(e) => Err(e),
        }
    }
}

/// GPIO pin for which the mode has been set to `Output`.
#[derive(Debug)]
pub struct OutputPin {
    number: u8,
}

impl OutputPin {
    pub closed spec fn spec_number(&self) -> u8 {
        self.number
    }

    pub fn number(&self) -> (r: u8)
        ensures
            r == self.spec_number(),
    {
        self.number
    }

    /// Request that writes the given level to the pin.
    pub fn digital_write(&self, value: DigitalOut) -> (r: HwCall)
        ensures
            r == (HwCall::DigitalWrite { pin: self.spec_number() as i32, value: value.spec_code() }),
    {
        HwCall::DigitalWrite { pin: self.number as i32, value: value.code() }
    }

    /// Request that writes the given analog value to the pin.
    pub fn analog_write(&self, value: i32) -> (r: HwCall)
        ensures
            r == (HwCall::AnalogWrite { pin: self.spec_number() as i32, value }),
    {
        HwCall::AnalogWrite { pin: self.number as i32, value }
    }
}

/// The native register value for a PWM value: the same 32 bits read as a
/// signed integer.
pub open spec fn pwm_register_value(value: u32) -> i32 {
    if value <= 0x7fff_ffff {
        value as i32
    } else {
        (value - 0x1_0000_0000) as i32
    }
}

fn pwm_register(value: u32) -> (r: i32)
    ensures
        r == pwm_register_value(value),
{
    if value <= 0x7fff_ffff {
        value as i32
    } else {
        (value as i64 - 0x1_0000_0000i64) as i32
    }
}

/// GPIO pin for which the mode has been set to `PwmOutput`.
#[derive(Debug)]
pub struct PwmOutputPin {
    number: u8,
    config: WiringPiConfiguration,
}

impl PwmOutputPin {
    pub closed spec fn spec_number(&self) -> u8 {
        self.number
    }

    pub closed spec fn spec_config(&self) -> WiringPiConfiguration {
        self.config
    }

    pub fn number(&self) -> (r: u8)
        ensures
            r == self.spec_number(),
    {
        self.number
    }

    /// Writes the given value to the PWM register for the pin (the Raspberry
    /// Pi has one on-board PWM pin). Refused under the `Sys` configuration.
    pub fn pwm_write(&self, value: u32) -> (r: Result<HwCall, ErrorKind>)
        ensures
            allows_changes(self.spec_config()) ==> r == Ok::<HwCall, ErrorKind>(
                HwCall::PwmWrite { pin: self.spec_number() as i32, value: pwm_register_value(value) },
            ),
            !allows_changes(self.spec_config()) ==> r == Err::<HwCall, ErrorKind>(
                ErrorKind::ConfigurationError,
            ),
    {
        match check_changes_allowed(self.config) {
            Err(e) => Err(e),
            Ok(()) => {
                Ok(HwCall::PwmWrite { pin: self.number as i32, value: pwm_register(value) })
            },
        }
    }
}

/// Outside the `Sys` configuration, a pin whose mode has been set to `Output`
/// takes a digital write, and one whose mode has been set to an input without
/// pull resistor refuses it as an illegal mode.
pub proof fn lemma_output_mode_allows_write(pin: PinState, value: DigitalOut)
    requires
        allows_changes(pin.config),
    ensures
        pin.set_mode(Mode::Output) is Ok,
        pin.set_mode(Mode::Output)->Ok_0.0.digital_write(value) is Ok,
        pin.set_mode(Mode::Input(ResistorMode::NoPull)) is Ok,
        pin.set_mode(Mode::Input(ResistorMode::NoPull))->Ok_0.0.digital_write(value) == Err::<
            HwCall,
            ErrorKind,
        >(ErrorKind::IllegalModeError),
{
}

/// Under the `Sys` configuration every change of mode and every change of
/// resistor mode is refused with a configuration error. The handles fixed to
/// one mode are obtained through the same change of mode, so they are refused
/// too.
pub proof fn lemma_sys_refuses_changes(pin: PinState, mode: Mode, res: ResistorMode)
    requires
        pin.config == WiringPiConfiguration::Sys,
    ensures
        pin.set_mode(mode) == Err::<(PinState, Seq<HwCall>), ErrorKind>(
            ErrorKind::ConfigurationError,
        ),
        pin.set_resistor_mode(res) == Err::<(PinState, HwCall), ErrorKind>(
            ErrorKind::ConfigurationError,
        ),
{
}

/// A pin that is not an input refuses a change of resistor mode as an illegal
/// mode, whatever its mode is (the configuration check comes first, so this
/// holds outside `Sys`).
pub proof fn lemma_resistor_mode_needs_input(pin: PinState, res: ResistorMode)
    requires
        allows_changes(pin.config),
        !(pin.mode is Input),
    ensures
        pin.set_resistor_mode(res) == Err::<(PinState, HwCall), ErrorKind>(
            ErrorKind::IllegalModeError,
        ),
{
}

} // verus!
