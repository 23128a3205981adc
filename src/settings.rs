use vstd::prelude::*;
use crate::flags::{
    Termios, B110, B115200, B1200, B134, B150, B1800, B19200, B200, B230400, B2400, B300,
    B38400, B4800, B50, B57600, B600, B75, B9600, BOTHER, CBAUD, CLOCAL, CREAD, CRTSCTS, CS5,
    CS6, CS7, CS8, CSIZE, CSTOPB, ECHO, ECHOE, ECHOK, ECHONL, IBAUD0, ICANON, ICRNL, IEXTEN,
    IGNBRK, IGNCR, IGNPAR, INLCR, INPCK, ISIG, IXOFF, IXON, OPOST, PARENB, PARODD, VMIN, VTIME,
};
use crate::types::{BaudRate, CharSize, Error, FlowControl, Parity, StopBits};

verus! {

/// Whether this platform accepts literal rates through the `BOTHER` escape.
pub const CUSTOM_SPEED_SUPPORTED: bool = true;

/// The native speed code of a rate, when the platform has one for it.
pub open spec fn speed_code(b: BaudRate) -> Option<u32> {
    match b {
        BaudRate::Baud110 => Some(B110),
        BaudRate::Baud300 => Some(B300),
        BaudRate::Baud600 => Some(B600),
        BaudRate::Baud1200 => Some(B1200),
        BaudRate::Baud2400 => Some(B2400),
        BaudRate::Baud4800 => Some(B4800),
        BaudRate::Baud9600 => Some(B9600),
        BaudRate::Baud19200 => Some(B19200),
        BaudRate::Baud38400 => Some(B38400),
        BaudRate::Baud57600 => Some(B57600),
        BaudRate::Baud115200 => Some(B115200),
        BaudRate::BaudOther(r) => {
            if r == 50 {
                Some(B50)
            } else if r == 75 {
                Some(B75)
            } else if r == 134 {
                Some(B134)
            } else if r == 150 {
                Some(B150)
            } else if r == 200 {
                Some(B200)
            } else if r == 1800 {
                Some(B1800)
            } else if r == 230400 {
                Some(B230400)
            } else {
                None
            }
        },
    }
}

/// The rate that a native speed code stands for.
pub open spec fn baud_of_code(code: u32) -> Option<BaudRate> {
    if code == B50 {
        Some(BaudRate::BaudOther(50))
    } else if code == B75 {
        Some(BaudRate::BaudOther(75))
    } else if code == B110 {
        Some(BaudRate::Baud110)
    } else if code == B134 {
        Some(BaudRate::BaudOther(134))
    } else if code == B150 {
        Some(BaudRate::BaudOther(150))
    } else if code == B200 {
        Some(BaudRate::BaudOther(200))
    } else if code == B300 {
        Some(BaudRate::Baud300)
    } else if code == B600 {
        Some(BaudRate::Baud600)
    } else if code == B1200 {
        Some(BaudRate::Baud1200)
    } else if code == B1800 {
        Some(BaudRate::BaudOther(1800))
    } else if code == B2400 {
        Some(BaudRate::Baud2400)
    } else if code == B4800 {
        Some(BaudRate::Baud4800)
    } else if code == B9600 {
        Some(BaudRate::Baud9600)
    } else if code == B19200 {
        Some(BaudRate::Baud19200)
    } else if code == B38400 {
        Some(BaudRate::Baud38400)
    } else if code == B57600 {
        Some(BaudRate::Baud57600)
    } else if code == B115200 {
        Some(BaudRate::Baud115200)
    } else if code == B230400 {
        Some(BaudRate::BaudOther(230400))
    } else {
        None
    }
}

/// The output speed code: the speed field of the control modes.
pub open spec fn output_speed(t: Termios) -> u32 {
    t.c_cflag & CBAUD
}

/// The input speed code: zero when `IBAUD0` is set, else the speed field.
pub open spec fn input_speed(t: Termios) -> u32 {
    if t.c_iflag & IBAUD0 != 0 {
        0
    } else {
        t.c_cflag & CBAUD
    }
}

/// The rate that an attribute block describes, if it describes one.
pub open spec fn baud_rate_of(t: Termios) -> Option<BaudRate> {
    if t.c_cflag & CBAUD == BOTHER {
        if t.c_ispeed == t.c_ospeed {
            Some(BaudRate::BaudOther(t.c_ispeed))
        } else {
            None
        }
    } else if input_speed(t) != output_speed(t) {
        None
    } else {
        baud_of_code(output_speed(t))
    }
}

/// Both speeds set to a native code.
pub open spec fn with_speed_code(t: Termios, code: u32) -> Termios {
    Termios {
        c_iflag: t.c_iflag & !IBAUD0,
        c_cflag: (t.c_cflag & !CBAUD) | code,
        c_ispeed: code,
        c_ospeed: code,
        ..t
    }
}

/// Both speeds set to a literal rate through the `BOTHER` escape.
pub open spec fn with_custom_speed(t: Termios, rate: u32) -> Termios {
    Termios { c_cflag: (t.c_cflag & !CBAUD) | BOTHER, c_ispeed: rate, c_ospeed: rate, ..t }
}

/// The attribute block with its speeds set to a rate, on a platform with the escape.
pub open spec fn with_baud_rate(t: Termios, b: BaudRate) -> Termios {
    match speed_code(b) {
        Some(code) => with_speed_code(t, code),
        None => match b {
            BaudRate::BaudOther(r) => with_custom_speed(t, r),
            _ => t,
        },
    }
}

/// The character-size bits of a size.
pub open spec fn char_size_bits(c: CharSize) -> u32 {
    match c {
        CharSize::Bits5 => CS5,
        CharSize::Bits6 => CS6,
        CharSize::Bits7 => CS7,
        CharSize::Bits8 => CS8,
    }
}

pub open spec fn char_size_of(t: Termios) -> Option<CharSize> {
    let s = t.c_cflag & CSIZE;
    if s == CS8 {
        Some(CharSize::Bits8)
    } else if s == CS7 {
        Some(CharSize::Bits7)
    } else if s == CS6 {
        Some(CharSize::Bits6)
    } else if s == CS5 {
        Some(CharSize::Bits5)
    } else {
        None
    }
}

pub open spec fn with_char_size(t: Termios, c: CharSize) -> Termios {
    Termios { c_cflag: (t.c_cflag & !CSIZE) | char_size_bits(c), ..t }
}

pub open spec fn parity_of(t: Termios) -> Parity {
    if t.c_cflag & PARENB != 0 {
        if t.c_cflag & PARODD != 0 {
            Parity::ParityOdd
        } else {
            Parity::ParityEven
        }
    } else {
        Parity::ParityNone
    }
}

/// Parity set in the control modes; input checking enabled (and parity
/// errors not ignored) exactly when parity is on.
pub open spec fn with_parity(t: Termios, p: Parity) -> Termios {
    match p {
        Parity::ParityNone => Termios {
            c_cflag: t.c_cflag & !(PARENB | PARODD),
            c_iflag: (t.c_iflag & !INPCK) | IGNPAR,
            ..t
        },
        Parity::ParityOdd => Termios {
            c_cflag: t.c_cflag | (PARENB | PARODD),
            c_iflag: (t.c_iflag | INPCK) & !IGNPAR,
            ..t
        },
        Parity::ParityEven => Termios {
            c_cflag: (t.c_cflag & !PARODD) | PARENB,
            c_iflag: (t.c_iflag | INPCK) & !IGNPAR,
            ..t
        },
    }
}

pub open spec fn stop_bits_of(t: Termios) -> StopBits {
    if t.c_cflag & CSTOPB != 0 {
        StopBits::Stop2
    } else {
        StopBits::Stop1
    }
}

pub open spec fn with_stop_bits(t: Termios, s: StopBits) -> Termios {
    match s {
        StopBits::Stop1 => Termios { c_cflag: t.c_cflag & !CSTOPB, ..t },
        StopBits::Stop2 => Termios { c_cflag: t.c_cflag | CSTOPB, ..t },
    }
}

/// Hardware flow control wins over the software flags.
pub open spec fn flow_control_of(t: Termios) -> FlowControl {
    if t.c_cflag & CRTSCTS != 0 {
        FlowControl::FlowHardware
    } else if t.c_iflag & (IXON | IXOFF) != 0 {
        FlowControl::FlowSoftware
    } else {
        FlowControl::FlowNone
    }
}

/// `FlowNone` clears both flag groups; the other two modes only assert their own.
pub open spec fn with_flow_control(t: Termios, f: FlowControl) -> Termios {
    match f {
        FlowControl::FlowNone => Termios {
            c_iflag: t.c_iflag & !(IXON | IXOFF),
            c_cflag: t.c_cflag & !CRTSCTS,
            ..t
        },
        FlowControl::FlowSoftware => Termios { c_iflag: t.c_iflag | (IXON | IXOFF), ..t },
        FlowControl::FlowHardware => Termios { c_cflag: t.c_cflag | CRTSCTS, ..t },
    }
}


/// The bits that raw binary mode clears from the local modes.
pub const RAW_CLEARED_LFLAG: u32 = ICANON | ECHO | ECHOE | ECHOK | ECHONL | ISIG | IEXTEN;

/// The bits that raw binary mode clears from the input modes.
pub const RAW_CLEARED_IFLAG: u32 = INLCR | IGNCR | ICRNL | IGNBRK;

/// `r` is `t` put in raw binary mode: receiver on, modem lines ignored, no
/// line editing, echo, signals, output processing or CR/LF translation, and
/// reads that return at once.
pub open spec fn is_raw_mode_of(r: Termios, t: Termios) -> bool {
    &&& r.c_cflag == t.c_cflag | (CREAD | CLOCAL)
    &&& r.c_lflag == t.c_lflag & !RAW_CLEARED_LFLAG
    &&& r.c_oflag == t.c_oflag & !OPOST
    &&& r.c_iflag == t.c_iflag & !RAW_CLEARED_IFLAG
    &&& r.c_line == t.c_line
    &&& r.c_ispeed == t.c_ispeed
    &&& r.c_ospeed == t.c_ospeed
    &&& r.c_cc@ == t.c_cc@.update(VMIN as int, 0u8).update(VTIME as int, 0u8)
}

/// The native speed code of a rate, when the platform has one for it.
fn native_speed_code(b: BaudRate) -> (r: Option<u32>)
    ensures
        r == speed_code(b),
{
    match b {
        BaudRate::Baud110 => Some(B110),
        BaudRate::Baud300 => Some(B300),
        BaudRate::Baud600 => Some(B600),
        BaudRate::Baud1200 => Some(B1200),
        BaudRate::Baud2400 => Some(B2400),
        BaudRate::Baud4800 => Some(B4800),
        BaudRate::Baud9600 => Some(B9600),
        BaudRate::Baud19200 => Some(B19200),
        BaudRate::Baud38400 => Some(B38400),
        BaudRate::Baud57600 => Some(B57600),
        BaudRate::Baud115200 => Some(B115200),
        BaudRate::BaudOther(50) => Some(B50),
        BaudRate::BaudOther(75) => Some(B75),
        BaudRate::BaudOther(134) => Some(B134),
        BaudRate::BaudOther(150) => Some(B150),
        BaudRate::BaudOther(200) => Some(B200),
        BaudRate::BaudOther(1800) => Some(B1800),
        BaudRate::BaudOther(230400) => Some(B230400),
        BaudRate::BaudOther(_) => None,
    }
}

/// The rate that a native speed code stands for.
fn rate_of_speed_code(code: u32) -> (r: Option<BaudRate>)
    ensures
        r == baud_of_code(code),
{
    if code == B50 {
        Some(BaudRate::BaudOther(50))
    } else if code == B75 {
        Some(BaudRate::BaudOther(75))
    } else if code == B110 {
        Some(BaudRate::Baud110)
    } else if code == B134 {
        Some(BaudRate::BaudOther(134))
    } else if code == B150 {
        Some(BaudRate::BaudOther(150))
    } else if code == B200 {
        Some(BaudRate::BaudOther(200))
    } else if code == B300 {
        Some(BaudRate::Baud300)
    } else if code == B600 {
        Some(BaudRate::Baud600)
    } else if code == B1200 {
        Some(BaudRate::Baud1200)
    } else if code == B1800 {
        Some(BaudRate::BaudOther(1800))
    } else if code == B2400 {
        Some(BaudRate::Baud2400)
    } else if code == B4800 {
        Some(BaudRate::Baud4800)
    } else if code == B9600 {
        Some(BaudRate::Baud9600)
    } else if code == B19200 {
        Some(BaudRate::Baud19200)
    } else if code == B38400 {
        Some(BaudRate::Baud38400)
    } else if code == B57600 {
        Some(BaudRate::Baud57600)
    } else if code == B115200 {
        Some(BaudRate::Baud115200)
    } else if code == B230400 {
        Some(BaudRate::BaudOther(230400))
    } else {
        None
    }
}

/// Serial port settings for terminal devices: an attribute block read from,
/// or to be written to, a device.
#[derive(Clone, Copy, Debug)]
pub struct TTYSettings {
    pub termios: Termios,
}

impl TTYSettings {
    pub fn new(termios: Termios) -> (r: TTYSettings)
        ensures
            r.termios == termios,
    {
        TTYSettings { termios }
    }

    /// Settings from the attributes just read from a device, put in raw binary mode.
    pub fn from_device(termios: Termios) -> (r: TTYSettings)
        ensures
            is_raw_mode_of(r.termios, termios),
    {
        let mut t = termios;
        t.c_cflag = t.c_cflag | (CREAD | CLOCAL);
        t.c_lflag = t.c_lflag & !RAW_CLEARED_LFLAG;
        t.c_oflag = t.c_oflag & !OPOST;
        t.c_iflag = t.c_iflag & !RAW_CLEARED_IFLAG;
        t.c_cc[VMIN] = 0;
        t.c_cc[VTIME] = 0;
        TTYSettings { termios: t }
    }

    /// Both speeds set to a literal rate through the `BOTHER` escape.
    fn set_custom_baud_rate(&mut self, baud: u32)
        ensures
            final(self).termios == with_custom_speed(old(self).termios, baud),
    {
        self.termios.c_cflag = (self.termios.c_cflag & !CBAUD) | BOTHER;
        self.termios.c_ispeed = baud;
        self.termios.c_ospeed = baud;
    }

    /// Both speeds set to a native speed code.
    fn set_speed_code(&mut self, code: u32)
        ensures
            final(self).termios == with_speed_code(old(self).termios, code),
    {
        self.termios.c_iflag = self.termios.c_iflag & !IBAUD0;
        self.termios.c_cflag = (self.termios.c_cflag & !CBAUD) | code;
        self.termios.c_ispeed = code;
        self.termios.c_ospeed = code;
    }

    /// The rate held through the `BOTHER` escape: `Ok(None)` when the escape
    /// is not in use, `Err(())` when the two literal speeds differ.
    fn get_custom_baud_rate(&self) -> (r: Result<Option<BaudRate>, ()>)
        ensures
            self.termios.c_cflag & CBAUD != BOTHER ==> r == Ok::<Option<BaudRate>, ()>(None),
            self.termios.c_cflag & CBAUD == BOTHER ==> (match r {
                Ok(v) => v == Some(BaudRate::BaudOther(self.termios.c_ispeed))
                    && self.termios.c_ispeed == self.termios.c_ospeed,
                Err(_) => self.termios.c_ispeed != self.termios.c_ospeed,
            }),
    {
        if (self.termios.c_cflag & CBAUD) == BOTHER {
            if self.termios.c_ispeed == self.termios.c_ospeed {
                return Ok(Some(BaudRate::BaudOther(self.termios.c_ispeed)));
            } else {
                return Err(());
            }
        }
        Ok(None)
    }

    /// The configured rate; `None` when the attributes describe no single rate.
    pub fn baud_rate(&self) -> (r: Option<BaudRate>)
        ensures
            r == baud_rate_of(self.termios),
    {
        match self.get_custom_baud_rate() {
            Ok(Some(b)) => Some(b),
            Err(_) => None,
            Ok(None) => {
                let ospeed = self.termios.c_cflag & CBAUD;
                let ispeed = if self.termios.c_iflag & IBAUD0 != 0 {
                    0
                } else {
                    self.termios.c_cflag & CBAUD
                };
                if ospeed != ispeed {
                    return None;
                }
                rate_of_speed_code(ospeed)
            },
        }
    }

    /// Sets the rate, given whether the platform offers the `BOTHER` escape.
    /// A rate with no native code fails with `InvalidInput`, leaving the
    /// attributes unchanged, where the escape is missing.
    pub fn set_baud_rate_on(&mut self, baud_rate: BaudRate, custom_speed: bool) -> (r: Result<(), Error>)
        ensures
            speed_code(baud_rate) is Some || custom_speed ==> r == Ok::<(), Error>(())
                && final(self).termios == with_baud_rate(old(self).termios, baud_rate),
            speed_code(baud_rate) is None && !custom_speed ==> r == Err::<(), Error>(Error::InvalidInput)
                && final(self).termios == old(self).termios,
    {
        match native_speed_code(baud_rate) {
            Some(code) => {
                self.set_speed_code(code);
                Ok(())
            },
            None => {
                if !custom_speed {
                    return Err(Error::InvalidInput);
                }
                match baud_rate {
                    BaudRate::BaudOther(b) => {
                        self.set_custom_baud_rate(b);
                        Ok(())
                    },
                    _ => Ok(()),
                }
            },
        }
    }

    /// Sets the rate on this platform.
    pub fn set_baud_rate(&mut self, baud_rate: BaudRate) -> (r: Result<(), Error>)
        ensures
            r == Ok::<(), Error>(()),
            final(self).termios == with_baud_rate(old(self).termios, baud_rate),
    {
        self.set_baud_rate_on(baud_rate, CUSTOM_SPEED_SUPPORTED)
    }

    pub fn char_size(&self) -> (r: Option<CharSize>)
        ensures
            r == char_size_of(self.termios),
    {
        let s = self.termios.c_cflag & CSIZE;
        if s == CS8 {
            Some(CharSize::Bits8)
        } else if s == CS7 {
            Some(CharSize::Bits7)
        } else if s == CS6 {
            Some(CharSize::Bits6)
        } else if s == CS5 {
            Some(CharSize::Bits5)
        } else {
            None
        }
    }

    pub fn set_char_size(&mut self, char_size: CharSize)
        ensures
            final(self).termios == with_char_size(old(self).termios, char_size),
    {
        let size = match char_size {
            CharSize::Bits5 => CS5,
            CharSize::Bits6 => CS6,
            CharSize::Bits7 => CS7,
            CharSize::Bits8 => CS8,
        };
        self.termios.c_cflag = (self.termios.c_cflag & !CSIZE) | size;
    }

    pub fn parity(&self) -> (r: Option<Parity>)
        ensures
            r == Some(parity_of(self.termios)),
    {
        if self.termios.c_cflag & PARENB != 0 {
            if self.termios.c_cflag & PARODD != 0 {
                Some(Parity::ParityOdd)
            } else {
                Some(Parity::ParityEven)
            }
        } else {
            Some(Parity::ParityNone)
        }
    }

    pub fn set_parity(&mut self, parity: Parity)
        ensures
            final(self).termios == with_parity(old(self).termios, parity),
    {
        match parity {
            Parity::ParityNone => {
                self.termios.c_cflag = self.termios.c_cflag & !(PARENB | PARODD);
                self.termios.c_iflag = (self.termios.c_iflag & !INPCK) | IGNPAR;
            },
            Parity::ParityOdd => {
                self.termios.c_cflag = self.termios.c_cflag | (PARENB | PARODD);
                self.termios.c_iflag = (self.termios.c_iflag | INPCK) & !IGNPAR;
            },
            Parity::ParityEven => {
                self.termios.c_cflag = (self.termios.c_cflag & !PARODD) | PARENB;
                self.termios.c_iflag = (self.termios.c_iflag | INPCK) & !IGNPAR;
            },
        }
    }

    pub fn stop_bits(&self) -> (r: Option<StopBits>)
        ensures
            r == Some(stop_bits_of(self.termios)),
    {
        if self.termios.c_cflag & CSTOPB != 0 {
            Some(StopBits::Stop2)
        } else {
            Some(StopBits::Stop1)
        }
    }

    pub fn set_stop_bits(&mut self, stop_bits: StopBits)
        ensures
            final(self).termios == with_stop_bits(old(self).termios, stop_bits),
    {
        match stop_bits {
            StopBits::Stop1 => self.termios.c_cflag = self.termios.c_cflag & !CSTOPB,
            StopBits::Stop2 => self.termios.c_cflag = self.termios.c_cflag | CSTOPB,
        }
    }

    pub fn flow_control(&self) -> (r: Option<FlowControl>)
        ensures
            r == Some(flow_control_of(self.termios)),
    {
        if self.termios.c_cflag & CRTSCTS != 0 {
            Some(FlowControl::FlowHardware)
        } else if self.termios.c_iflag & (IXON | IXOFF) != 0 {
            Some(FlowControl::FlowSoftware)
        } else {
            Some(FlowControl::FlowNone)
        }
    }

    pub fn set_flow_control(&mut self, flow_control: FlowControl)
        ensures
            final(self).termios == with_flow_control(old(self).termios, flow_control),
    {
        match flow_control {
            FlowControl::FlowNone => {
                self.termios.c_iflag = self.termios.c_iflag & !(IXON | IXOFF);
                self.termios.c_cflag = self.termios.c_cflag & !CRTSCTS;
            },
            FlowControl::FlowSoftware => {
                self.termios.c_iflag = self.termios.c_iflag | (IXON | IXOFF);
            },
            FlowControl::FlowHardware => {
                self.termios.c_cflag = self.termios.c_cflag | CRTSCTS;
            },
        }
    }
}

} // verus!
