//! Requests to the native library, as plain values.
//!
//! A verified operation that passes its checks returns the request that
//! performs it. The code around the library issues the request as it stands
//! and, where the request reads something, hands the integer it got back to
//! the decoding function that goes with it.
use vstd::prelude::*;

verus! {

/// One call into the native library, with its arguments in the form that the
/// library takes them.
#[derive(Debug, Clone, Copy, PartialEq, Eq, Structural)]
pub enum HwCall {
    /// `pinMode(pin, mode)`
    PinMode { pin: i32, mode: i32 },
    /// `pullUpDnControl(pin, pud)`
    PullUpDnControl { pin: i32, pud: i32 },
    /// `digitalWrite(pin, value)`
    DigitalWrite { pin: i32, value: i32 },
    /// `digitalRead(pin)`, which returns the level
    DigitalRead { pin: i32 },
    /// `analogRead(pin)`, which returns the value
    AnalogRead { pin: i32 },
    /// `analogWrite(pin, value)`
    AnalogWrite { pin: i32, value: i32 },
    /// `pwmWrite(pin, value)`
    PwmWrite { pin: i32, value: i32 },
    /// `digitalWriteByte(value)`
    DigitalWriteByte { value: i32 },
    /// `pwmSetMode(mode)`
    PwmSetMode { mode: i32 },
    /// `pwmSetRange(range)`
    PwmSetRange { range: u32 },
    /// `pwmSetClock(divisor)`
    PwmSetClock { divisor: i32 },
    /// `piHiPri(priority)`, which returns a status
    PiHiPri { priority: i32 },
    /// `shiftIn(data_pin, clock_pin, order)`, which returns the byte
    ShiftIn { data_pin: u8, clock_pin: u8, order: u8 },
    /// `shiftOut(data_pin, clock_pin, order, byte)`
    ShiftOut { data_pin: u8, clock_pin: u8, order: u8, byte: u8 },
    /// `wiringPiI2CRead(fd)`, which returns the value
    I2CRead { fd: i32 },
    /// `wiringPiI2CWrite(fd, data)`, which returns a status
    I2CWrite { fd: i32, data: i32 },
    /// `serialClose(fd)`
    SerialClose { fd: i32 },
    /// `serialPutchar(fd, c)`
    SerialPutchar { fd: i32, c: u8 },
    /// `serialDataAvail(fd)`, which returns a count or a status
    SerialDataAvail { fd: i32 },
    /// `serialGetchar(fd)`, which returns a character or a status
    SerialGetchar { fd: i32 },
    /// `serialFlush(fd)`
    SerialFlush { fd: i32 },
}

} // verus!
