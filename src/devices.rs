//! Bus and shift-register devices: I2C, SPI, serial port, shift register.
//!
//! A bus device is made from the status that its native set-up call returned,
//! read by that call's own convention, and afterwards addresses the bus by the
//! descriptor or channel it holds.
use vstd::prelude::*;

use crate::call::HwCall;
use crate::status::{check_minus_one, check_negative, ErrorKind};

verus! {

/// Device on the I2C bus, addressed by the descriptor its set-up returned.
#[derive(Debug)]
pub struct I2CDevice {
    descriptor: i32,
}

impl View for I2CDevice {
    type V = i32;

    closed spec fn view(&self) -> i32 {
        self.descriptor
    }
}

impl I2CDevice {
    /// The device from the result of `wiringPiI2CSetup(dev_id)`: exactly `-1`
    /// is a failure, anything else the descriptor.
    pub fn setup(result: i32) -> (r: Result<I2CDevice, ErrorKind>)
        ensures
            result == -1 ==> r is Err && r->Err_0 == ErrorKind::HardwareFailure,
            result != -1 ==> r is Ok && r->Ok_0@ == result,
    {
        match check_minus_one(result) {
            Ok(descriptor) => Ok(I2CDevice { descriptor }),
            Err(e) => Err(e),
        }
    }

    pub fn descriptor(&self) -> (r: i32)
        ensures
            r == self@,
    {
        self.descriptor
    }

    /// Request for a simple read of the device.
    pub fn read(&self) -> (r: HwCall)
        ensures
            r == (HwCall::I2CRead { fd: self@ }),
    {
        HwCall::I2CRead { fd: self.descriptor }
    }

    /// Request for a simple write of `data` to the device; its status is read
    /// with [`I2CDevice::write_result`].
    pub fn write(&self, data: i32) -> (r: HwCall)
        ensures
            r == (HwCall::I2CWrite { fd: self@, data }),
    {
        HwCall::I2CWrite { fd: self.descriptor, data }
    }

    /// Reads the status of a write: any negative value is a failure.
    pub fn write_result(result: i32) -> (r: Result<(), ErrorKind>)
        ensures
            result < 0 ==> r == Err::<(), ErrorKind>(ErrorKind::HardwareFailure),
            result >= 0 ==> r == Ok::<(), ErrorKind>(()),
    {
        match check_negative(result) {
            Ok(_) => Ok(()),
            Err(e) => Err(e),
        }
    }
}

/// SPI channel of the Raspberry Pi.
#[derive(Debug, Clone, Copy, PartialEq, Eq, Structural)]
pub enum SpiChannel {
    Channel1,
    Channel2,
}

impl SpiChannel {
    pub open spec fn spec_code(self) -> u8 {
        match self {
            SpiChannel::Channel1 => 1,
            SpiChannel::Channel2 => 2,
        }
    }

    /// Native number of the channel.
    pub fn code(&self) -> (r: u8)
        ensures
            r == self.spec_code(),
    {
        match self {
            SpiChannel::Channel1 => 1,
            SpiChannel::Channel2 => 2,
        }
    }
}

/// Device on an SPI channel.
#[derive(Debug)]
pub struct SpiDevice {
    channel: u8,
}

impl View for SpiDevice {
    type V = u8;

    closed spec fn view(&self) -> u8 {
        self.channel
    }
}

impl SpiDevice {
    /// The device from the result of `wiringPiSPISetup(channel, speed)`: any
    /// negative value is a failure. The speed is in Hz, from 500,000 through
    /// 32,000,000.
    pub fn setup(channel: SpiChannel, result: i32) -> (r: Result<SpiDevice, ErrorKind>)
        ensures
            result < 0 ==> r is Err && r->Err_0 == ErrorKind::HardwareFailure,
            result >= 0 ==> r is Ok && r->Ok_0@ == channel.spec_code(),
    {
        match check_negative(result) {
            Ok(_) => Ok(SpiDevice { channel: channel.code() }),
            Err(e) => Err(e),
        }
    }

    /// Native number of the channel, which `wiringPiSPIDataRW` takes along
    /// with the buffer to exchange.
    pub fn channel(&self) -> (r: u8)
        ensures
            r == self@,
    {
        self.channel
    }
}

/// A serial port, addressed by the descriptor its opening returned.
#[derive(Debug)]
pub struct SerialDevice {
    descriptor: i32,
}

impl View for SerialDevice {
    type V = i32;

    closed spec fn view(&self) -> i32 {
        self.descriptor
    }
}

/// A count as the native library's 32 bits read unsigned.
pub open spec fn as_count(result: i32) -> u32 {
    if result >= 0 {
        result as u32
    } else {
        (result + 0x1_0000_0000) as u32
    }
}

impl SerialDevice {
    /// The port from the result of `serialOpen(device, baud)`, which also
    /// sets a read timeout of 10 seconds: exactly `-1` is a failure, anything
    /// else the descriptor.
    pub fn serial_open(result: i32) -> (r: Result<SerialDevice, ErrorKind>)
        ensures
            result == -1 ==> r is Err && r->Err_0 == ErrorKind::HardwareFailure,
            result != -1 ==> r is Ok && r->Ok_0@ == result,
    {
        match check_minus_one(result) {
            Ok(descriptor) => Ok(SerialDevice { descriptor }),
            Err(e) => Err(e),
        }
    }

    /// Descriptor of the port, which `serialPuts` takes along with the text.
    pub fn descriptor(&self) -> (r: i32)
        ensures
            r == self@,
    {
        self.descriptor
    }

    /// Request that closes the port.
    pub fn serial_close(&self) -> (r: HwCall)
        ensures
            r == (HwCall::SerialClose { fd: self@ }),
    {
        HwCall::SerialClose { fd: self.descriptor }
    }

    /// Request that sends a single byte.
    pub fn put_char(&self, character: u8) -> (r: HwCall)
        ensures
            r == (HwCall::SerialPutchar { fd: self@, c: character }),
    {
        HwCall::SerialPutchar { fd: self.descriptor, c: character }
    }

    /// Request for the number of characters available; its result is read
    /// with [`SerialDevice::data_available_result`].
    pub fn data_available(&self) -> (r: HwCall)
        ensures
            r == (HwCall::SerialDataAvail { fd: self@ }),
    {
        HwCall::SerialDataAvail { fd: self.descriptor }
    }

    /// Reads the result of a count request: exactly `-1` is a failure,
    /// anything else the count.
    pub fn data_available_result(result: i32) -> (r: Result<u32, ErrorKind>)
        ensures
            result == -1 ==> r == Err::<u32, ErrorKind>(ErrorKind::HardwareFailure),
            result != -1 ==> r == Ok::<u32, ErrorKind>(as_count(result)),
    {
        match check_minus_one(result) {
            Err(e) => Err(e),
            Ok(n) => {
                if n >= 0 {
                    Ok(n as u32)
                } else {
                    Ok((n as i64 + 0x1_0000_0000i64) as u32)
                }
            },
        }
    }

    /// Request for the next character, which blocks for up to 10 seconds if
    /// none is available; its result is read with
    /// [`SerialDevice::get_char_result`].
    pub fn get_char(&self) -> (r: HwCall)
        ensures
            r == (HwCall::SerialGetchar { fd: self@ }),
    {
        HwCall::SerialGetchar { fd: self.descriptor }
    }

    /// Reads the result of a character request: exactly `-1` is a failure
    /// (the time ran out), anything else the character.
    pub fn get_char_result(result: i32) -> (r: Result<i32, ErrorKind>)
        ensures
            result == -1 ==> r == Err::<i32, ErrorKind>(ErrorKind::HardwareFailure),
            result != -1 ==> r == Ok::<i32, ErrorKind>(result),
    {
        check_minus_one(result)
    }

    /// Request that discards all data received or waiting to be sent.
    pub fn flush(&self) -> (r: HwCall)
        ensures
            r == (HwCall::SerialFlush { fd: self@ }),
    {
        HwCall::SerialFlush { fd: self.descriptor }
    }
}

/// Order in which the bits of a byte are shifted.
#[derive(Debug, Clone, Copy, PartialEq, Eq, Structural)]
pub enum ShiftOrder {
    LSBFirst,
    MSBFirst,
}

impl ShiftOrder {
    pub open spec fn spec_code(self) -> u8 {
        match self {
            ShiftOrder::LSBFirst => 0,
            ShiftOrder::MSBFirst => 1,
        }
    }

    /// Native code of the order.
    pub fn code(&self) -> (r: u8)
        ensures
            r == self.spec_code(),
    {
        match self {
            ShiftOrder::LSBFirst => 0,
            ShiftOrder::MSBFirst => 1,
        }
    }
}

/// A shift register on a data pin and a clock pin, shifted in a fixed order.
#[derive(Debug)]
pub struct ShiftDevice {
    data_pin: u8,
    clock_pin: u8,
    order: ShiftOrder,
}

impl View for ShiftDevice {
    type V = (u8, u8, ShiftOrder);

    closed spec fn view(&self) -> (u8, u8, ShiftOrder) {
        (self.data_pin, self.clock_pin, self.order)
    }
}

impl ShiftDevice {
    pub fn new(data_pin: u8, clock_pin: u8, order: ShiftOrder) -> (r: ShiftDevice)
        ensures
            r@ == (data_pin, clock_pin, order),
    {
        ShiftDevice { data_pin, clock_pin, order }
    }

    /// Request that shifts an 8-bit value in: the clock pin goes high, the data
    /// pin is sampled, the clock pin goes low, for each of the 8 bits.
    pub fn shift_in(&self) -> (r: HwCall)
        ensures
            r == (HwCall::ShiftIn {
                data_pin: self@.0,
                clock_pin: self@.1,
                order: self@.2.spec_code(),
            }),
    {
        HwCall::ShiftIn {
            data_pin: self.data_pin,
            clock_pin: self.clock_pin,
            order: self.order.code(),
        }
    }

    /// Request that shifts `value` out: the data pin is set, then the clock pin
    /// goes high and low, for each of the 8 bits.
    pub fn shift_out(&self, value: u8) -> (r: HwCall)
        ensures
            r == (HwCall::ShiftOut {
                data_pin: self@.0,
                clock_pin: self@.1,
                order: self@.2.spec_code(),
                byte: value,
            }),
    {
        HwCall::ShiftOut {
            data_pin: self.data_pin,
            clock_pin: self.clock_pin,
            order: self.order.code(),
            byte: value,
        }
    }
}

} // verus!
