use vstd::prelude::*;

verus! {

/// Number of control characters in a terminal attribute block.
pub const NCCS: usize = 32;

/// Index of the read-timeout control value.
pub const VTIME: usize = 5;
/// Index of the minimum-characters control value.
pub const VMIN: usize = 6;

// input modes
pub const IGNBRK: u32 = 0o1;
pub const IGNPAR: u32 = 0o4;
pub const INPCK: u32 = 0o20;
pub const INLCR: u32 = 0o100;
pub const IGNCR: u32 = 0o200;
pub const ICRNL: u32 = 0o400;
pub const IXON: u32 = 0o2000;
pub const IXOFF: u32 = 0o10000;
/// Input-mode bit that marks the input speed as zero ("same as output").
pub const IBAUD0: u32 = 0o20000000000;

// output modes
pub const OPOST: u32 = 0o1;

// control modes
pub const CBAUD: u32 = 0o10017;
/// Escape code in the speed field: the speeds are literal rates.
pub const BOTHER: u32 = 0o10000;
pub const CSIZE: u32 = 0o60;
pub const CS5: u32 = 0o0;
pub const CS6: u32 = 0o20;
pub const CS7: u32 = 0o40;
pub const CS8: u32 = 0o60;
pub const CSTOPB: u32 = 0o100;
pub const CREAD: u32 = 0o200;
pub const PARENB: u32 = 0o400;
pub const PARODD: u32 = 0o1000;
pub const CLOCAL: u32 = 0o4000;
pub const CRTSCTS: u32 = 0o20000000000;

// local modes
pub const ISIG: u32 = 0o1;
pub const ICANON: u32 = 0o2;
pub const ECHO: u32 = 0o10;
pub const ECHOE: u32 = 0o20;
pub const ECHOK: u32 = 0o40;
pub const ECHONL: u32 = 0o100;
pub const IEXTEN: u32 = 0o100000;

// speed codes
pub const B0: u32 = 0o0;
pub const B50: u32 = 0o1;
pub const B75: u32 = 0o2;
pub const B110: u32 = 0o3;
pub const B134: u32 = 0o4;
pub const B150: u32 = 0o5;
pub const B200: u32 = 0o6;
pub const B300: u32 = 0o7;
pub const B600: u32 = 0o10;
pub const B1200: u32 = 0o11;
pub const B1800: u32 = 0o12;
pub const B2400: u32 = 0o13;
pub const B4800: u32 = 0o14;
pub const B9600: u32 = 0o15;
pub const B19200: u32 = 0o16;
pub const B38400: u32 = 0o17;
pub const B57600: u32 = 0o10001;
pub const B115200: u32 = 0o10002;
pub const B230400: u32 = 0o10003;

// modem control lines
pub const TIOCM_DTR: i32 = 0x002;
pub const TIOCM_RTS: i32 = 0x004;
pub const TIOCM_CTS: i32 = 0x020;
pub const TIOCM_CD: i32 = 0x040;
pub const TIOCM_RI: i32 = 0x080;
pub const TIOCM_DSR: i32 = 0x100;

/// Queue selector that discards both pending input and pending output.
pub const TCIOFLUSH: i32 = 2;

/// A terminal attribute block held as plain values: the four mode-flag
/// words, the line discipline, the control characters and the two speed
/// fields (speed codes, or literal rates when the speed field holds `BOTHER`).
#[derive(Clone, Copy, Debug)]
pub struct Termios {
    pub c_iflag: u32,
    pub c_oflag: u32,
    pub c_cflag: u32,
    pub c_lflag: u32,
    pub c_line: u8,
    pub c_cc: [u8; 32],
    pub c_ispeed: u32,
    pub c_ospeed: u32,
}

impl Termios {
    /// An attribute block with every flag, control character and speed zero.
    pub fn zeroed() -> (r: Termios)
        ensures
            r.c_iflag == 0 && r.c_oflag == 0 && r.c_cflag == 0 && r.c_lflag == 0,
            r.c_line == 0 && r.c_ispeed == 0 && r.c_ospeed == 0,
            forall|i: int| 0 <= i < NCCS ==> r.c_cc[i] == 0,
    {
        Termios {
            c_iflag: 0,
            c_oflag: 0,
            c_cflag: 0,
            c_lflag: 0,
            c_line: 0,
            c_cc: [0u8; 32],
            c_ispeed: 0,
            c_ospeed: 0,
        }
    }
}

} // verus!
