//! Typed, verified front end for the wiringPi hardware-access library of the
//! Raspberry Pi.
//!
//! The library decides; the hardware acts. Every operation that would touch the
//! board is checked here against the process configuration and the pin's
//! recorded mode, and on success it hands back the exact native request to
//! issue ([`HwCall`]). Status codes that come back from the native library are
//! turned into the library's own [`ErrorKind`] by the functions of [`status`].
use vstd::prelude::*;

pub mod call;
pub mod constants;
pub mod devices;
pub mod pin;
pub mod status;

pub use call::HwCall;
pub use constants::{DigitalOut, InterruptEdgeType, PinModes, PwmMode, ResistorMode};
pub use devices::{I2CDevice, SerialDevice, ShiftDevice, ShiftOrder, SpiChannel, SpiDevice};
pub use pin::{InputPin, Mode, OutputPin, Pin, PinState, PwmOutputPin};
pub use status::ErrorKind;

use status::check_negative;

verus! {

/// Possible configurations for initializing the wiringPi library.
#[derive(Debug, Clone, Copy, PartialEq, Eq, Structural)]
pub enum WiringPiConfiguration {
    /// Sets up **wiringPi** and uses the wiringPi numbering scheme for pins.
    Def,
    /// Sets up **wiringPi** using the Broadcom GPIO pin numbers directly.
    Gpio,
    /// Sets up **wiringPi** using the Broadcom GPIO pin number but restricts
    /// the calling program to using pins on the *main GPIO header only*.
    Phys,
    /// Initializes **wiringPi** but uses the */sys/class/gpio* interface rather
    /// than accessing the hardware directly. Pins must have been exported and
    /// set up beforehand with the `gpio` program: their modes cannot be changed
    /// from here.
    Sys,
}

/// Whether the configuration lets the program change the hardware set-up of
/// pins (modes, resistors, the PWM generator).
pub open spec fn allows_changes(config: WiringPiConfiguration) -> bool {
    config != WiringPiConfiguration::Sys
}

/// Fails with [`ErrorKind::ConfigurationError`] exactly under the `Sys`
/// configuration.
pub fn check_changes_allowed(config: WiringPiConfiguration) -> (r: Result<(), ErrorKind>)
    ensures
        allows_changes(config) ==> r == Ok::<(), ErrorKind>(()),
        !allows_changes(config) ==> r == Err::<(), ErrorKind>(ErrorKind::ConfigurationError),
{
    match config {
        WiringPiConfiguration::Sys => Err(ErrorKind::ConfigurationError),
        _ => Ok(()),
    }
}

/// Configuration in force once an initialization for `requested` has been
/// asked for, given the one in force before (`None`: not initialized).
pub open spec fn initialized_after(
    done: Option<WiringPiConfiguration>,
    requested: WiringPiConfiguration,
) -> Option<WiringPiConfiguration> {
    match done {
        Option::None => Option::Some(requested),
        Option::Some(first) => Option::Some(first),
    }
}

/// Native set-up to run when an initialization for `requested` is asked for:
/// the requested one the first time, nothing afterwards.
pub open spec fn setup_to_run(
    done: Option<WiringPiConfiguration>,
    requested: WiringPiConfiguration,
) -> Option<WiringPiConfiguration> {
    match done {
        Option::None => Option::Some(requested),
        Option::Some(_) => Option::None,
    }
}

/// Record of the process-wide initialization of the native library: which
/// configuration it was set up with, if it was.
///
/// The program keeps one of these for the whole process, behind its
/// one-time-execution primitive, and passes it to [`WiringPi::new`].
#[derive(Debug)]
pub struct LibraryInit {
    done: Option<WiringPiConfiguration>,
    outcome: Option<Result<(), ErrorKind>>,
}

impl View for LibraryInit {
    type V = Option<WiringPiConfiguration>;

    closed spec fn view(&self) -> Option<WiringPiConfiguration> {
        self.done
    }
}

impl LibraryInit {
    /// The state before any initialization.
    /// How the native set-up went, once it has run and its status has been
    /// recorded.
    pub closed spec fn spec_outcome(&self) -> Option<Result<(), ErrorKind>> {
        self.outcome
    }

    pub fn new() -> (r: LibraryInit)
        ensures
            r@ == Option::<WiringPiConfiguration>::None,
            r.spec_outcome() == Option::<Result<(), ErrorKind>>::None,
    {
        LibraryInit { done: Option::None, outcome: Option::None }
    }

    /// Records the status that the native set-up call returned: a negative
    /// value is a failure. The configuration in force is kept.
    pub fn record_setup(&mut self, status: i32)
        ensures
            final(self)@ == old(self)@,
            status < 0 ==> final(self).spec_outcome() == Option::Some(
                Err::<(), ErrorKind>(ErrorKind::HardwareFailure),
            ),
            status >= 0 ==> final(self).spec_outcome() == Option::Some(Ok::<(), ErrorKind>(())),
    {
        let outcome = match check_negative(status) {
            Ok(_) => Ok(()),
            Err(e) => Err(e),
        };
        self.outcome = Option::Some(outcome);
    }

    /// How the native set-up went, if its status has been recorded.
    pub fn setup_outcome(&self) -> (r: Option<Result<(), ErrorKind>>)
        ensures
            r == self.spec_outcome(),
    {
        self.outcome
    }

    /// The configuration the library was set up with, if any.
    pub fn configuration(&self) -> (r: Option<WiringPiConfiguration>)
        ensures
            r == self@,
    {
        self.done
    }
}

/// Access structure into the wiringPi library.
#[derive(Debug)]
pub struct WiringPi {
    config: WiringPiConfiguration,
}

impl View for WiringPi {
    type V = WiringPiConfiguration;

    closed spec fn view(&self) -> WiringPiConfiguration {
        self.config
    }
}

/// Priority that the program asks for when promoting its thread.
#[derive(Debug, Clone, Copy)]
pub struct ThreadPriority(u8);

impl View for ThreadPriority {
    type V = u8;

    closed spec fn view(&self) -> u8 {
        self.0
    }
}

impl ThreadPriority {
    pub fn new(priority: u8) -> (r: ThreadPriority)
        ensures
            r@ == priority,
    {
        ThreadPriority(priority)
    }

    pub fn value(&self) -> (r: u8)
        ensures
            r == self@,
    {
        self.0
    }
}

impl WiringPi {
    /// Asks for the library to be set up according to `config`. The library is
    /// set up once per process: the first request wins, and later ones, with
    /// whatever configuration, get a handle on the configuration of the first.
    ///
    /// Returns the handle and the native set-up to run now, if any.
    pub fn new(init: &mut LibraryInit, config: WiringPiConfiguration) -> (r: (
        WiringPi,
        Option<WiringPiConfiguration>,
    ))
        ensures
            final(init)@ == initialized_after(old(init)@, config),
            r.1 == setup_to_run(old(init)@, config),
            final(init)@ == Option::Some(r.0@),
            final(init).spec_outcome() == old(init).spec_outcome(),
    {
        let first = match init.done {
            Option::None => {
                init.done = Option::Some(config);
                true
            },
            Option::Some(_) => false,
        };
        let effective = match init.done {
            Option::Some(c) => c,
            Option::None => config,
        };
        let setup = if first {
            Option::Some(config)
        } else {
            Option::None
        };
        (WiringPi { config: effective }, setup)
    }

    /// The configuration the library was set up with.
    pub fn config(&self) -> (r: WiringPiConfiguration)
        ensures
            r == self@,
    {
        self.config
    }

    /// Obtain access to the pin at the specified number (taken modulo 256). The
    /// pin starts in the `Output` mode.
    pub fn pin(&self, pin_number: u32) -> (r: Pin)
        ensures
            r@ == (PinState {
                number: (pin_number % 256) as u8,
                config: self@,
                mode: Mode::Output,
            }),
    {
        Pin::new((pin_number % 256) as u8, self.config)
    }

    /// Request that writes the byte provided to the first 8 GPIO pins. It is
    /// made under every configuration; under `Sys` the native library ignores
    /// it.
    pub fn digital_write_byte(&self, value: i32) -> (r: HwCall)
        ensures
            r == (HwCall::DigitalWriteByte { value }),
    {
        HwCall::DigitalWriteByte { value }
    }

    /// Request that sets the mode of the PWM generator. It is made under every
    /// configuration; under `Sys` the native library ignores it.
    pub fn pwm_set_mode(&self, mode: PwmMode) -> (r: HwCall)
        ensures
            r == (HwCall::PwmSetMode { mode: mode.spec_code() }),
    {
        HwCall::PwmSetMode { mode: mode.code() }
    }

    /// Request that sets the range register of the PWM generator (1024 by
    /// default). It is made under every configuration; under `Sys` the native
    /// library ignores it.
    pub fn pwm_set_range(&self, range: u32) -> (r: HwCall)
        ensures
            r == (HwCall::PwmSetRange { range }),
    {
        HwCall::PwmSetRange { range }
    }

    /// Request that sets the clock divisor of the PWM generator. It is made
    /// under every configuration; under `Sys` the native library ignores it.
    pub fn pwm_set_clock(&self, divisor: i32) -> (r: HwCall)
        ensures
            r == (HwCall::PwmSetClock { divisor }),
    {
        HwCall::PwmSetClock { divisor }
    }

    /// Request that moves the program to a higher priority with real-time
    /// scheduling. Its status is read with [`status::check_zero`]: anything
    /// but zero is a failure (as when not run as root).
    pub fn promote_thread_priority(&self, priority: ThreadPriority) -> (r: HwCall)
        ensures
            r == (HwCall::PiHiPri { priority: priority@ as i32 }),
    {
        HwCall::PiHiPri { priority: priority.0 as i32 }
    }
}

/// Initialization is idempotent: of two requests in one process, with any two
/// configurations, only the first sets the library up, and both handles carry
/// the first configuration. From any state, a second request changes nothing
/// and runs no set-up.
pub proof fn lemma_first_initialization_wins(
    first: WiringPiConfiguration,
    second: WiringPiConfiguration,
)
    ensures
        ({
            let after_first = initialized_after(Option::None, first);
            let after_second = initialized_after(after_first, second);
            &&& setup_to_run(Option::None, first) == Option::Some(first)
            &&& setup_to_run(after_first, second) == Option::<WiringPiConfiguration>::None
            &&& after_first == Option::Some(first)
            &&& after_second == Option::Some(first)
        }),
        forall|done: Option<WiringPiConfiguration>|
            {
                let once = #[trigger] initialized_after(done, first);
                &&& initialized_after(once, second) == once
                &&& setup_to_run(once, second) == Option::<WiringPiConfiguration>::None
            },
{
}

} // verus!
