use vstd::prelude::*;

verus! {

/// A serial line speed: one of the standard rates, or a rate in bits per second.
#[derive(Clone, Copy, Debug, PartialEq, Eq, Structural)]
pub enum BaudRate {
    Baud110,
    Baud300,
    Baud600,
    Baud1200,
    Baud2400,
    Baud4800,
    Baud9600,
    Baud19200,
    Baud38400,
    Baud57600,
    Baud115200,
    BaudOther(u32),
}

/// Number of data bits in each character.
#[derive(Clone, Copy, Debug, PartialEq, Eq, Structural)]
pub enum CharSize {
    Bits5,
    Bits6,
    Bits7,
    Bits8,
}

/// Parity checking mode.
#[derive(Clone, Copy, Debug, PartialEq, Eq, Structural)]
pub enum Parity {
    ParityNone,
    ParityOdd,
    ParityEven,
}

/// Number of stop bits.
#[derive(Clone, Copy, Debug, PartialEq, Eq, Structural)]
pub enum StopBits {
    Stop1,
    Stop2,
}

/// Flow control mode.
#[derive(Clone, Copy, Debug, PartialEq, Eq, Structural)]
pub enum FlowControl {
    FlowNone,
    FlowSoftware,
    FlowHardware,
}

/// The kinds of failure that every fallible operation reports.
#[derive(Clone, Copy, Debug, PartialEq, Eq, Structural)]
pub enum Error {
    /// The device could not be opened or acquired: missing, or already in use.
    NoDevice,
    /// A malformed path or a configuration that cannot be represented.
    InvalidInput,
    /// Any other failure of the operating system, with its error code when known.
    Io(Option<i32>),
}

pub const ENOENT: i32 = 2;
pub const EINTR: i32 = 4;
pub const ENXIO: i32 = 6;
pub const EACCES: i32 = 13;
pub const EBUSY: i32 = 16;
pub const ENODEV: i32 = 19;
pub const ENOTDIR: i32 = 20;
pub const EISDIR: i32 = 21;
pub const EINVAL: i32 = 22;
pub const ENAMETOOLONG: i32 = 36;
pub const ELOOP: i32 = 40;

/// The error codes that say the device is missing, busy or not reachable.
pub open spec fn is_no_device_code(code: i32) -> bool {
    code == EBUSY || code == EISDIR || code == ELOOP || code == ENOTDIR || code == ENOENT
        || code == ENODEV || code == ENXIO || code == EACCES
}

/// The error codes that say an argument was malformed.
pub open spec fn is_invalid_input_code(code: i32) -> bool {
    code == EINVAL || code == ENAMETOOLONG
}

/// The class of an operating-system error code.
pub open spec fn os_error_spec(code: i32) -> Error {
    if is_no_device_code(code) {
        Error::NoDevice
    } else if is_invalid_input_code(code) {
        Error::InvalidInput
    } else {
        Error::Io(Some(code))
    }
}

/// The class of a failed call's error, given its operating-system code if it has one.
pub open spec fn io_error_spec(code: Option<i32>) -> Error {
    match code {
        Some(c) => os_error_spec(c),
        None => Error::Io(None),
    }
}

/// Classifies an operating-system error code.
pub fn from_raw_os_error(code: i32) -> (r: Error)
    ensures
        r == os_error_spec(code),
{
    if code == EBUSY || code == EISDIR || code == ELOOP || code == ENOTDIR || code == ENOENT
        || code == ENODEV || code == ENXIO || code == EACCES {
        Error::NoDevice
    } else if code == EINVAL || code == ENAMETOOLONG {
        Error::InvalidInput
    } else {
        Error::Io(Some(code))
    }
}

/// Classifies the error of a failed call, given its operating-system code if any.
pub fn from_io_error(code: Option<i32>) -> (r: Error)
    ensures
        r == io_error_spec(code),
{
    match code {
        Some(c) => from_raw_os_error(c),
        None => Error::Io(None),
    }
}

} // verus!
