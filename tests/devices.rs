use wiringpi_rs::{ErrorKind, HwCall, I2CDevice, SerialDevice, ShiftDevice, ShiftOrder, SpiChannel, SpiDevice};

#[test]
fn i2c_setup_and_requests() {
    assert_eq!(I2CDevice::setup(-1).unwrap_err(), ErrorKind::HardwareFailure);
    let dev = I2CDevice::setup(3).unwrap();
    assert_eq!(dev.descriptor(), 3);
    assert_eq!(dev.read(), HwCall::I2CRead { fd: 3 });
    assert_eq!(dev.write(0x42), HwCall::I2CWrite { fd: 3, data: 0x42 });
    assert_eq!(I2CDevice::write_result(-5), Err(ErrorKind::HardwareFailure));
    assert_eq!(I2CDevice::write_result(0), Ok(()));
    assert_eq!(I2CDevice::setup(-2).unwrap().descriptor(), -2);
}

#[test]
fn spi_setup() {
    assert_eq!(SpiDevice::setup(SpiChannel::Channel1, -4).unwrap_err(), ErrorKind::HardwareFailure);
    assert_eq!(SpiDevice::setup(SpiChannel::Channel1, 0).unwrap().channel(), 1);
    assert_eq!(SpiDevice::setup(SpiChannel::Channel2, 9).unwrap().channel(), 2);
    assert_eq!(SpiChannel::Channel2.code(), 2);
}

#[test]
fn serial_open_and_requests() {
    assert_eq!(SerialDevice::serial_open(-1).unwrap_err(), ErrorKind::HardwareFailure);
    let dev = SerialDevice::serial_open(6).unwrap();
    assert_eq!(dev.descriptor(), 6);
    assert_eq!(dev.serial_close(), HwCall::SerialClose { fd: 6 });
    assert_eq!(dev.put_char(b'x'), HwCall::SerialPutchar { fd: 6, c: b'x' });
    assert_eq!(dev.data_available(), HwCall::SerialDataAvail { fd: 6 });
    assert_eq!(dev.get_char(), HwCall::SerialGetchar { fd: 6 });
    assert_eq!(dev.flush(), HwCall::SerialFlush { fd: 6 });
}

#[test]
fn serial_results() {
    assert_eq!(SerialDevice::data_available_result(-1), Err(ErrorKind::HardwareFailure));
    assert_eq!(SerialDevice::data_available_result(12), Ok(12));
    assert_eq!(SerialDevice::data_available_result(-2), Ok(u32::MAX - 1));
    assert_eq!(SerialDevice::get_char_result(-1), Err(ErrorKind::HardwareFailure));
    assert_eq!(SerialDevice::get_char_result(65), Ok(65));
}

#[test]
fn shift_requests() {
    let dev = ShiftDevice::new(2, 3, ShiftOrder::MSBFirst);
    assert_eq!(dev.shift_in(), HwCall::ShiftIn { data_pin: 2, clock_pin: 3, order: 1 });
    assert_eq!(
        dev.shift_out(0x81),
        HwCall::ShiftOut { data_pin: 2, clock_pin: 3, order: 1, byte: 0x81 }
    );
    let lsb = ShiftDevice::new(4, 5, ShiftOrder::LSBFirst);
    assert_eq!(lsb.shift_in(), HwCall::ShiftIn { data_pin: 4, clock_pin: 5, order: 0 });
}
