//! The library's errors, and the reading of the status codes that the native
//! library returns.
//!
//! The native calls differ in how they report failure: some return exactly
//! `-1`, some any negative value, one anything but zero. Each convention has
//! its own function here, and each device uses the one of its call.
use vstd::prelude::*;

verus! {

/// What can go wrong in an operation of the library.
#[derive(Debug, Clone, Copy, PartialEq, Eq, Structural)]
pub enum ErrorKind {
    /// The operation is not allowed under the process configuration.
    ConfigurationError,
    /// The operation is not allowed in the pin's current mode.
    IllegalModeError,
    /// The native library reported a failure.
    HardwareFailure,
    /// Text for the native library holds a NUL byte, which would end it early.
    InvalidString,
}

/// Reads a status for which exactly `-1` means failure; any other value is
/// handed back.
pub fn check_minus_one(result: i32) -> (r: Result<i32, ErrorKind>)
    ensures
        result == -1 ==> r == Err::<i32, ErrorKind>(ErrorKind::HardwareFailure),
        result != -1 ==> r == Ok::<i32, ErrorKind>(result),
{
    if result == -1 {
        Err(ErrorKind::HardwareFailure)
    } else {
        Ok(result)
    }
}

/// Reads a status for which any negative value means failure; any other
/// value is handed back.
pub fn check_negative(result: i32) -> (r: Result<i32, ErrorKind>)
    ensures
        result < 0 ==> r == Err::<i32, ErrorKind>(ErrorKind::HardwareFailure),
        result >= 0 ==> r == Ok::<i32, ErrorKind>(result),
{
    if result < 0 {
        Err(ErrorKind::HardwareFailure)
    } else {
        Ok(result)
    }
}

/// Reads a status for which zero alone means success.
pub fn check_zero(result: i32) -> (r: Result<(), ErrorKind>)
    ensures
        result == 0 ==> r == Ok::<(), ErrorKind>(()),
        result != 0 ==> r == Err::<(), ErrorKind>(ErrorKind::HardwareFailure),
{
    if result == 0 {
        Ok(())
    } else {
        Err(ErrorKind::HardwareFailure)
    }
}

/// Checks text that the native library takes as a NUL-terminated string:
/// refused if it holds a NUL byte.
pub fn check_text(bytes: &[u8]) -> (r: Result<(), ErrorKind>)
    ensures
        bytes@.contains(0u8) ==> r == Err::<(), ErrorKind>(ErrorKind::InvalidString),
        !bytes@.contains(0u8) ==> r == Ok::<(), ErrorKind>(()),
{
    let mut i: usize = 0;
    while i < bytes.len()
        invariant
            i <= bytes@.len(),
            forall|j: int| 0 <= j < i ==> bytes@[j] != 0u8,
        decreases bytes@.len() - i,
    {
        if bytes[i] == 0u8 {
            proof {
                assert(bytes@[i as int] == 0u8);
            }
            return Err(ErrorKind::InvalidString);
        }
        i = i + 1;
    }
    proof {
        assert forall|j: int| 0 <= j < bytes@.len() implies bytes@[j] != 0u8 by {}
    }
    Ok(())
}

} // verus!
