use wiringpi_rs::{
    DigitalOut, ErrorKind, HwCall, LibraryInit, Mode, PinModes, ResistorMode, WiringPi,
    WiringPiConfiguration,
};

fn handle(config: WiringPiConfiguration) -> WiringPi {
    let mut init = LibraryInit::new();
    WiringPi::new(&mut init, config).0
}

#[test]
fn default_config_pin_write_then_input_refuses_write() {
    let pi = handle(WiringPiConfiguration::Def);
    let mut pin = pi.pin(15);
    let calls = pin.set_mode(Mode::Output).unwrap();
    assert_eq!(calls, vec![HwCall::PinMode { pin: 15, mode: 1 }]);
    assert_eq!(pin.mode(), Mode::Output);
    assert_eq!(
        pin.digital_write(DigitalOut::High),
        Ok(HwCall::DigitalWrite { pin: 15, value: 1 })
    );
    let calls = pin.set_mode(Mode::Input(ResistorMode::PullUp)).unwrap();
    assert_eq!(
        calls,
        vec![
            HwCall::PinMode { pin: 15, mode: 0 },
            HwCall::PullUpDnControl { pin: 15, pud: 2 },
        ]
    );
    assert_eq!(pin.digital_write(DigitalOut::High), Err(ErrorKind::IllegalModeError));
}

#[test]
fn sys_config_refuses_mode_change_and_keeps_mode() {
    let pi = handle(WiringPiConfiguration::Sys);
    let mut pin = pi.pin(7);
    assert_eq!(pin.set_mode(Mode::Output), Err(ErrorKind::ConfigurationError));
    assert_eq!(pin.mode(), Mode::Output);
    assert_eq!(pin.number(), 7);
}

#[test]
fn sys_config_refuses_every_mode_and_resistor_change() {
    let pi = handle(WiringPiConfiguration::Sys);
    let mut pin = pi.pin(3);
    for mode in [
        Mode::Input(ResistorMode::NoPull),
        Mode::Input(ResistorMode::PullDown),
        Mode::Output,
        Mode::PwmOutput,
        Mode::ClockOutput,
    ] {
        assert_eq!(pin.set_mode(mode), Err(ErrorKind::ConfigurationError));
    }
    for res in [ResistorMode::NoPull, ResistorMode::PullDown, ResistorMode::PullUp] {
        assert_eq!(pin.set_resistor_mode(res), Err(ErrorKind::ConfigurationError));
    }
    assert_eq!(pin.check_config(), Err(ErrorKind::ConfigurationError));
    assert_eq!(pin.mode(), Mode::Output);
}

#[test]
fn output_mode_allows_write_and_no_pull_input_refuses_it() {
    for config in [
        WiringPiConfiguration::Def,
        WiringPiConfiguration::Gpio,
        WiringPiConfiguration::Phys,
    ] {
        let mut pin = handle(config).pin(4);
        assert!(pin.set_mode(Mode::Output).is_ok());
        assert_eq!(
            pin.digital_write(DigitalOut::Low),
            Ok(HwCall::DigitalWrite { pin: 4, value: 0 })
        );
        assert!(pin.set_mode(Mode::Input(ResistorMode::NoPull)).is_ok());
        assert_eq!(pin.digital_write(DigitalOut::Low), Err(ErrorKind::IllegalModeError));
        assert_eq!(pin.check_config(), Ok(()));
    }
}

#[test]
fn resistor_mode_refused_for_every_non_input_mode() {
    let pi = handle(WiringPiConfiguration::Gpio);
    for mode in [Mode::Output, Mode::PwmOutput, Mode::ClockOutput] {
        let mut pin = pi.pin(18);
        pin.set_mode(mode).unwrap();
        assert_eq!(
            pin.set_resistor_mode(ResistorMode::PullUp),
            Err(ErrorKind::IllegalModeError)
        );
        assert_eq!(pin.mode(), mode);
    }
}

#[test]
fn resistor_mode_changes_input() {
    let mut pin = handle(WiringPiConfiguration::Def).pin(2);
    pin.set_mode(Mode::Input(ResistorMode::NoPull)).unwrap();
    assert_eq!(
        pin.set_resistor_mode(ResistorMode::PullDown),
        Ok(HwCall::PullUpDnControl { pin: 2, pud: 1 })
    );
    assert_eq!(pin.mode(), Mode::Input(ResistorMode::PullDown));
}

#[test]
fn set_mode_requests_for_each_mode() {
    let mut pin = handle(WiringPiConfiguration::Phys).pin(12);
    assert_eq!(
        pin.set_mode(Mode::PwmOutput).unwrap(),
        vec![HwCall::PinMode { pin: 12, mode: 2 }]
    );
    assert_eq!(
        pin.set_mode(Mode::ClockOutput).unwrap(),
        vec![HwCall::PinMode { pin: 12, mode: 3 }]
    );
    assert_eq!(pin.mode().pin_mode(), PinModes::GpioClock);
}

#[test]
fn pin_number_taken_modulo_256() {
    let pi = handle(WiringPiConfiguration::Def);
    assert_eq!(pi.pin(300).number(), 44);
    assert_eq!(pi.pin(255).number(), 255);
    assert_eq!(pi.pin(256).number(), 0);
}

#[test]
fn typed_pins_request_mode_outside_sys() {
    let pi = handle(WiringPiConfiguration::Def);
    let mut pin = pi.pin(5);
    let (mut input, calls) = pin.input().unwrap();
    assert_eq!(
        calls,
        vec![
            HwCall::PinMode { pin: 5, mode: 0 },
            HwCall::PullUpDnControl { pin: 5, pud: 0 },
        ]
    );
    assert_eq!(pin.mode(), Mode::Input(ResistorMode::NoPull));
    assert_eq!(input.resistor(), ResistorMode::NoPull);
    assert_eq!(input.digital_read(), HwCall::DigitalRead { pin: 5 });
    assert_eq!(input.analog_read(), HwCall::AnalogRead { pin: 5 });
    let mut pin = pi.pin(6);
    let (output, calls) = pin.output().unwrap();
    assert_eq!(calls, vec![HwCall::PinMode { pin: 6, mode: 1 }]);
    assert_eq!(pin.mode(), Mode::Output);
    assert_eq!(
        output.digital_write(DigitalOut::High),
        HwCall::DigitalWrite { pin: 6, value: 1 }
    );
    assert_eq!(output.analog_write(-9), HwCall::AnalogWrite { pin: 6, value: -9 });
    let mut pin = pi.pin(1);
    let (pwm, calls) = pin.pwm_output().unwrap();
    assert_eq!(calls, vec![HwCall::PinMode { pin: 1, mode: 2 }]);
    assert_eq!(pin.mode(), Mode::PwmOutput);
    assert_eq!(pwm.pwm_write(512), Ok(HwCall::PwmWrite { pin: 1, value: 512 }));
    assert_eq!(pwm.pwm_write(u32::MAX), Ok(HwCall::PwmWrite { pin: 1, value: -1 }));
    assert_eq!(
        input.set_resistor_mode(ResistorMode::PullUp),
        Ok(HwCall::PullUpDnControl { pin: 5, pud: 2 })
    );
    assert_eq!(input.resistor(), ResistorMode::PullUp);
}

#[test]
fn input_pin_records_resistor_mode() {
    let mut pin = handle(WiringPiConfiguration::Def).pin(15);
    let (mut input, _) = pin.input().unwrap();
    assert_eq!(
        input.set_resistor_mode(ResistorMode::PullUp),
        Ok(HwCall::PullUpDnControl { pin: 15, pud: 2 })
    );
    assert_eq!(input.resistor(), ResistorMode::PullUp);
    assert_eq!(input.number(), 15);
}

#[test]
fn typed_pins_refused_under_sys() {
    let pi = handle(WiringPiConfiguration::Sys);
    let mut pin = pi.pin(7);
    assert_eq!(pin.input().unwrap_err(), ErrorKind::ConfigurationError);
    assert_eq!(pin.output().unwrap_err(), ErrorKind::ConfigurationError);
    assert_eq!(pin.pwm_output().unwrap_err(), ErrorKind::ConfigurationError);
    assert_eq!(pin.mode(), Mode::Output);
    assert_eq!(pin.number(), 7);
}

#[test]
fn pin_handle_reads_and_writes() {
    let pin = handle(WiringPiConfiguration::Def).pin(9);
    assert_eq!(pin.digital_read(), HwCall::DigitalRead { pin: 9 });
    assert_eq!(pin.analog_read(), HwCall::AnalogRead { pin: 9 });
    assert_eq!(pin.analog_write(300), HwCall::AnalogWrite { pin: 9, value: 300 });
    assert_eq!(pin.pwm_write(0x8000_0000), Ok(HwCall::PwmWrite { pin: 9, value: i32::MIN }));
    let sys_pin = handle(WiringPiConfiguration::Sys).pin(9);
    assert_eq!(sys_pin.pwm_write(1), Err(ErrorKind::ConfigurationError));
    assert_eq!(sys_pin.analog_write(1), HwCall::AnalogWrite { pin: 9, value: 1 });
}
