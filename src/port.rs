use vstd::prelude::*;
use std::time::Duration;
use crate::flags::{TCIOFLUSH, TIOCM_CD, TIOCM_CTS, TIOCM_DSR, TIOCM_DTR, TIOCM_RI, TIOCM_RTS};
use crate::types::{from_io_error, io_error_spec, Error};

verus! {

/// The duration of a number of milliseconds.
pub uninterp spec fn duration_from_millis(ms: u64) -> Duration;

/// Relies on `Duration::from_millis`: the duration depends on its argument alone.
#[verifier::external_body]
fn millis(ms: u64) -> (r: Duration)
    ensures
        r == duration_from_millis(ms),
{
    Duration::from_millis(ms)
}

/// A device-control call made on a port's descriptor, with what it returned
/// (an error carries the operating system's code, if it has one).
pub enum DeviceCall {
    /// Take exclusive access.
    Exclusive(Result<(), Option<i32>>),
    /// Give up exclusive access.
    ReleaseExclusive(Result<(), Option<i32>>),
    /// Raise the modem lines of a bitmask.
    RaiseLines(i32, Result<(), Option<i32>>),
    /// Lower the modem lines of a bitmask.
    LowerLines(i32, Result<(), Option<i32>>),
    /// Read the modem-line bitmask.
    GetLines(Result<i32, Option<i32>>),
    /// Wait until written output is transmitted.
    Drain(Result<(), Option<i32>>),
    /// Discard the queues chosen by a selector.
    Flush(i32, Result<(), Option<i32>>),
}

/// What a port operation returns for the outcome of its call.
pub open spec fn call_outcome(res: Result<(), Option<i32>>) -> Result<(), Error> {
    match res {
        Ok(()) => Ok(()),
        Err(code) => Err(io_error_spec(code)),
    }
}

/// Whether a modem-line bitmask has a line raised.
pub open spec fn pin_set(bits: i32, pin: i32) -> bool {
    bits & pin != 0
}

/// What reading one modem line returns for the outcome of the bitmask read.
pub open spec fn line_outcome(res: Result<i32, Option<i32>>, pin: i32) -> Result<bool, Error> {
    match res {
        Ok(bits) => Ok(pin_set(bits, pin)),
        Err(code) => Err(io_error_spec(code)),
    }
}

/// The call that sets a modem line: raise when `level`, else lower.
pub open spec fn line_call(level: bool, pin: i32, res: Result<(), Option<i32>>) -> DeviceCall {
    if level {
        DeviceCall::RaiseLines(pin, res)
    } else {
        DeviceCall::LowerLines(pin, res)
    }
}

/// Relies on `ioctl_rs::tiocexcl`: puts the port's terminal in exclusive mode.
#[verifier::external_body]
fn tiocexcl(port: &mut TTYPort) -> (r: Result<(), Option<i32>>)
    ensures
        final(port).fd == old(port).fd && final(port).timeout == old(port).timeout,
        final(port).calls@ == old(port).calls@.push(DeviceCall::Exclusive(r)),
{
    match ioctl_rs::tiocexcl(port.fd) {
        Ok(v) => Ok(v),
        Err(e) => Err(e.raw_os_error()),
    }
}

/// Relies on `ioctl_rs::tiocnxcl`: takes the port's terminal out of exclusive mode.
#[verifier::external_body]
fn tiocnxcl(port: &mut TTYPort) -> (r: Result<(), Option<i32>>)
    ensures
        final(port).fd == old(port).fd && final(port).timeout == old(port).timeout,
        final(port).calls@ == old(port).calls@.push(DeviceCall::ReleaseExclusive(r)),
{
    match ioctl_rs::tiocnxcl(port.fd) {
        Ok(v) => Ok(v),
        Err(e) => Err(e.raw_os_error()),
    }
}

/// Relies on `ioctl_rs::tiocmbis`: raises the given modem lines of the port.
#[verifier::external_body]
fn tiocmbis(port: &mut TTYPort, bits: i32) -> (r: Result<(), Option<i32>>)
    ensures
        final(port).fd == old(port).fd && final(port).timeout == old(port).timeout,
        final(port).calls@ == old(port).calls@.push(DeviceCall::RaiseLines(bits, r)),
{
    match ioctl_rs::tiocmbis(port.fd, bits) {
        Ok(v) => Ok(v),
        Err(e) => Err(e.raw_os_error()),
    }
}

/// Relies on `ioctl_rs::tiocmbic`: lowers the given modem lines of the port.
#[verifier::external_body]
fn tiocmbic(port: &mut TTYPort, bits: i32) -> (r: Result<(), Option<i32>>)
    ensures
        final(port).fd == old(port).fd && final(port).timeout == old(port).timeout,
        final(port).calls@ == old(port).calls@.push(DeviceCall::LowerLines(bits, r)),
{
    match ioctl_rs::tiocmbic(port.fd, bits) {
        Ok(v) => Ok(v),
        Err(e) => Err(e.raw_os_error()),
    }
}

/// Relies on `ioctl_rs::tiocmget`: the port's current modem-line bitmask.
#[verifier::external_body]
fn tiocmget(port: &mut TTYPort) -> (r: Result<i32, Option<i32>>)
    ensures
        final(port).fd == old(port).fd && final(port).timeout == old(port).timeout,
        final(port).calls@ == old(port).calls@.push(DeviceCall::GetLines(r)),
{
    match ioctl_rs::tiocmget(port.fd) {
        Ok(v) => Ok(v),
        Err(e) => Err(e.raw_os_error()),
    }
}

/// Relies on `termios::tcdrain`: blocks until the port's written output is transmitted.
#[verifier::external_body]
fn tcdrain(port: &mut TTYPort) -> (r: Result<(), Option<i32>>)
    ensures
        final(port).fd == old(port).fd && final(port).timeout == old(port).timeout,
        final(port).calls@ == old(port).calls@.push(DeviceCall::Drain(r)),
{
    match termios::tcdrain(port.fd) {
        Ok(v) => Ok(v),
        Err(e) => Err(e.raw_os_error()),
    }
}

/// Relies on `termios::tcflush`: discards the port's selected queues.
#[verifier::external_body]
fn tcflush(port: &mut TTYPort, queue_selector: i32) -> (r: Result<(), Option<i32>>)
    ensures
        final(port).fd == old(port).fd && final(port).timeout == old(port).timeout,
        final(port).calls@ == old(port).calls@.push(DeviceCall::Flush(queue_selector, r)),
{
    match termios::tcflush(port.fd, queue_selector) {
        Ok(v) => Ok(v),
        Err(e) => Err(e.raw_os_error()),
    }
}

/// Whether a modem-line bitmask has a line raised.
pub fn pin_is_set(bits: i32, pin: i32) -> (r: bool)
    ensures
        r == pin_set(bits, pin),
{
    bits & pin != 0
}

/// A terminal device used as a serial port: its descriptor, owned
/// exclusively, the timeout that bounds each read and write, and the
/// device-control calls made on the descriptor so far.
pub struct TTYPort {
    fd: i32,
    timeout: Duration,
    calls: Ghost<Seq<DeviceCall>>,
}

impl TTYPort {
    pub closed spec fn raw_fd(&self) -> i32 {
        self.fd
    }

    pub closed spec fn timeout_value(&self) -> Duration {
        self.timeout
    }

    /// The device-control calls made on the descriptor, oldest first.
    pub closed spec fn calls(&self) -> Seq<DeviceCall> {
        self.calls@
    }

    /// `self` is `before` with one more call made and nothing else changed.
    pub open spec fn after_call(&self, before: &TTYPort, call: DeviceCall) -> bool {
        &&& self.raw_fd() == before.raw_fd()
        &&& self.timeout_value() == before.timeout_value()
        &&& self.calls() == before.calls().push(call)
    }

    /// A port over a descriptor just opened, with the default timeout of 100 ms.
    pub fn with_descriptor(fd: i32) -> (r: TTYPort)
        ensures
            r.raw_fd() == fd,
            r.timeout_value() == duration_from_millis(100),
            r.calls() == Seq::<DeviceCall>::empty(),
    {
        TTYPort { fd, timeout: millis(100), calls: Ghost(Seq::empty()) }
    }

    pub fn as_raw_fd(&self) -> (r: i32)
        ensures
            r == self.raw_fd(),
    {
        self.fd
    }

    pub fn timeout(&self) -> (r: Duration)
        ensures
            r == self.timeout_value(),
    {
        self.timeout
    }

    /// Changes the timeout; the device is not touched.
    pub fn set_timeout(&mut self, timeout: Duration) -> (r: Result<(), Error>)
        ensures
            r == Ok::<(), Error>(()),
            final(self).timeout_value() == timeout,
            final(self).raw_fd() == old(self).raw_fd(),
            final(self).calls() == old(self).calls(),
    {
        self.timeout = timeout;
        Ok(())
    }

    /// Takes exclusive access to the device.
    pub fn acquire_exclusive(&mut self) -> (r: Result<(), Error>)
        ensures
            exists|res: Result<(), Option<i32>>|
                #[trigger] final(self).after_call(old(self), DeviceCall::Exclusive(res))
                    && r == call_outcome(res),
    {
        let res = tiocexcl(self);
        proof {
            assert(self.after_call(old(self), DeviceCall::Exclusive(res)));
        }
        match res {
            Ok(()) => Ok(()),
            Err(code) => Err(from_io_error(code)),
        }
    }

    /// Gives up exclusive access; a failure is of no use to the caller and is dropped.
    pub fn release_exclusive(&mut self)
        ensures
            exists|res: Result<(), Option<i32>>|
                #[trigger] final(self).after_call(old(self), DeviceCall::ReleaseExclusive(res)),
    {
        let res = tiocnxcl(self);
        proof {
            assert(self.after_call(old(self), DeviceCall::ReleaseExclusive(res)));
        }
    }

    /// Discards both pending input and pending output.
    pub fn discard_queues(&mut self) -> (r: Result<(), Error>)
        ensures
            exists|res: Result<(), Option<i32>>|
                #[trigger] final(self).after_call(old(self), DeviceCall::Flush(TCIOFLUSH, res))
                    && r == call_outcome(res),
    {
        let res = tcflush(self, TCIOFLUSH);
        proof {
            assert(self.after_call(old(self), DeviceCall::Flush(TCIOFLUSH, res)));
        }
        match res {
            Ok(()) => Ok(()),
            Err(code) => Err(from_io_error(code)),
        }
    }

    /// Blocks until everything written has been transmitted.
    pub fn flush(&mut self) -> (r: Result<(), Error>)
        ensures
            exists|res: Result<(), Option<i32>>|
                #[trigger] final(self).after_call(old(self), DeviceCall::Drain(res))
                    && r == call_outcome(res),
    {
        let res = tcdrain(self);
        proof {
            assert(self.after_call(old(self), DeviceCall::Drain(res)));
        }
        match res {
            Ok(()) => Ok(()),
            Err(code) => Err(from_io_error(code)),
        }
    }

    /// Raises (`level`) or lowers a modem output line.
    pub fn set_pin(&mut self, pin: i32, level: bool) -> (r: Result<(), Error>)
        ensures
            exists|res: Result<(), Option<i32>>|
                #[trigger] final(self).after_call(old(self), line_call(level, pin, res))
                    && r == call_outcome(res),
    {
        let retval = if level {
            tiocmbis(self, pin)
        } else {
            tiocmbic(self, pin)
        };
        proof {
            assert(self.after_call(old(self), line_call(level, pin, retval)));
        }
        match retval {
            Ok(()) => Ok(()),
            Err(code) => Err(from_io_error(code)),
        }
    }

    /// Whether a modem input line is raised.
    pub fn read_pin(&mut self, pin: i32) -> (r: Result<bool, Error>)
        ensures
            exists|res: Result<i32, Option<i32>>|
                #[trigger] final(self).after_call(old(self), DeviceCall::GetLines(res))
                    && r == line_outcome(res, pin),
    {
        let res = tiocmget(self);
        proof {
            assert(self.after_call(old(self), DeviceCall::GetLines(res)));
        }
        match res {
            Ok(pins) => Ok(pin_is_set(pins, pin)),
            Err(code) => Err(from_io_error(code)),
        }
    }

    pub fn set_rts(&mut self, level: bool) -> (r: Result<(), Error>)
        ensures
            exists|res: Result<(), Option<i32>>|
                #[trigger] final(self).after_call(old(self), line_call(level, TIOCM_RTS, res))
                    && r == call_outcome(res),
    {
        self.set_pin(TIOCM_RTS, level)
    }

    pub fn set_dtr(&mut self, level: bool) -> (r: Result<(), Error>)
        ensures
            exists|res: Result<(), Option<i32>>|
                #[trigger] final(self).after_call(old(self), line_call(level, TIOCM_DTR, res))
                    && r == call_outcome(res),
    {
        self.set_pin(TIOCM_DTR, level)
    }

    pub fn read_cts(&mut self) -> (r: Result<bool, Error>)
        ensures
            exists|res: Result<i32, Option<i32>>|
                #[trigger] final(self).after_call(old(self), DeviceCall::GetLines(res))
                    && r == line_outcome(res, TIOCM_CTS),
    {
        self.read_pin(TIOCM_CTS)
    }

    pub fn read_dsr(&mut self) -> (r: Result<bool, Error>)
        ensures
            exists|res: Result<i32, Option<i32>>|
                #[trigger] final(self).after_call(old(self), DeviceCall::GetLines(res))
                    && r == line_outcome(res, TIOCM_DSR),
    {
        self.read_pin(TIOCM_DSR)
    }

    pub fn read_ri(&mut self) -> (r: Result<bool, Error>)
        ensures
            exists|res: Result<i32, Option<i32>>|
                #[trigger] final(self).after_call(old(self), DeviceCall::GetLines(res))
                    && r == line_outcome(res, TIOCM_RI),
    {
        self.read_pin(TIOCM_RI)
    }

    pub fn read_cd(&mut self) -> (r: Result<bool, Error>)
        ensures
            exists|res: Result<i32, Option<i32>>|
                #[trigger] final(self).after_call(old(self), DeviceCall::GetLines(res))
                    && r == line_outcome(res, TIOCM_CD),
    {
        self.read_pin(TIOCM_CD)
    }
}

} // verus!
