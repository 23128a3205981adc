use vstd::prelude::*;
use crate::flags::{
    Termios, B110, B115200, B1200, B134, B150, B1800, B19200, B200, B230400, B2400, B300,
    B38400, B4800, B50, B57600, B600, B75, B9600, BOTHER, CBAUD, CLOCAL, CREAD, CRTSCTS, CS5,
    CS6, CS7, CS8, CSIZE, CSTOPB, IBAUD0, IGNPAR, INPCK, IXOFF, IXON, PARENB, PARODD,
};
use crate::settings::{
    baud_rate_of, char_size_of, flow_control_of, is_raw_mode_of, parity_of, speed_code,
    stop_bits_of, with_baud_rate, with_char_size, with_flow_control, with_parity,
    with_stop_bits, RAW_CLEARED_IFLAG,
};
use crate::types::{BaudRate, CharSize, FlowControl, Parity, StopBits};

verus! {

proof fn lemma_field_read_back(x: u32, m: u32, v: u32)
    by (bit_vector)
    requires
        v & !m == 0,
    ensures
        ((x & !m) | v) & m == v,
{
}

proof fn lemma_field_write_twice(x: u32, m: u32, v: u32)
    by (bit_vector)
    ensures
        (((x & !m) | v) & !m) | v == (x & !m) | v,
{
}

proof fn lemma_set_twice(x: u32, c: u32)
    by (bit_vector)
    ensures
        (x | c) | c == x | c,
        (x & !c) & !c == x & !c,
{
}

proof fn lemma_set_clear_twice(x: u32, a: u32, b: u32)
    by (bit_vector)
    ensures
        (((x | a) & !b) | a) & !b == (x | a) & !b,
{
}

proof fn lemma_and_self(b: u32)
    by (bit_vector)
    ensures
        b & b == b,
{
}

proof fn lemma_bit_set(x: u32, c: u32, b: u32)
    by (bit_vector)
    requires
        b & c == b,
        b != 0,
    ensures
        (x | c) & b != 0,
        (x | c) & b == b,
{
}

proof fn lemma_bit_cleared(x: u32, c: u32, b: u32)
    by (bit_vector)
    requires
        b & c == b,
    ensures
        (x & !c) & b == 0,
{
}

proof fn lemma_disjoint_bits(x: u32, k: u32, m: u32)
    by (bit_vector)
    requires
        k & m == 0,
    ensures
        (x | k) & m == x & m,
        (x & !k) & m == x & m,
{
}

proof fn lemma_speed_codes_in_field()
    ensures
        B50 & !CBAUD == 0 && B75 & !CBAUD == 0 && B110 & !CBAUD == 0 && B134 & !CBAUD == 0,
        B150 & !CBAUD == 0 && B200 & !CBAUD == 0 && B300 & !CBAUD == 0 && B600 & !CBAUD == 0,
        B1200 & !CBAUD == 0 && B1800 & !CBAUD == 0 && B2400 & !CBAUD == 0,
        B4800 & !CBAUD == 0 && B9600 & !CBAUD == 0 && B19200 & !CBAUD == 0,
        B38400 & !CBAUD == 0 && B57600 & !CBAUD == 0 && B115200 & !CBAUD == 0,
        B230400 & !CBAUD == 0 && BOTHER & !CBAUD == 0,
{
    assert(0o1u32 & !0o10017u32 == 0 && 0o2u32 & !0o10017u32 == 0 && 0o3u32 & !0o10017u32 == 0
        && 0o4u32 & !0o10017u32 == 0 && 0o5u32 & !0o10017u32 == 0 && 0o6u32 & !0o10017u32 == 0
        && 0o7u32 & !0o10017u32 == 0 && 0o10u32 & !0o10017u32 == 0 && 0o11u32 & !0o10017u32 == 0
        && 0o12u32 & !0o10017u32 == 0 && 0o13u32 & !0o10017u32 == 0 && 0o14u32 & !0o10017u32 == 0
        && 0o15u32 & !0o10017u32 == 0 && 0o16u32 & !0o10017u32 == 0 && 0o17u32 & !0o10017u32 == 0
        && 0o10001u32 & !0o10017u32 == 0 && 0o10002u32 & !0o10017u32 == 0 && 0o10003u32
        & !0o10017u32 == 0 && 0o10000u32 & !0o10017u32 == 0) by (bit_vector);
}

/// Decoding the attributes just encoded from a rate gives that rate back, for
/// every standard rate and every literal rate, whatever the attributes held before.
pub proof fn lemma_baud_rate_round_trip(t: Termios, b: BaudRate)
    ensures
        baud_rate_of(with_baud_rate(t, b)) == Some(b),
{
    lemma_speed_codes_in_field();
    lemma_and_self(IBAUD0);
    match speed_code(b) {
        Some(code) => {
            lemma_field_read_back(t.c_cflag, CBAUD, code);
            lemma_bit_cleared(t.c_iflag, IBAUD0, IBAUD0);
        },
        None => {
            lemma_field_read_back(t.c_cflag, CBAUD, BOTHER);
        },
    }
}

/// Setting the rate to `a` and then to `b` leaves the rate `b`.
pub proof fn lemma_baud_rate_overwrite(t: Termios, a: BaudRate, b: BaudRate)
    ensures
        baud_rate_of(with_baud_rate(with_baud_rate(t, a), b)) == Some(b),
{
    lemma_baud_rate_round_trip(with_baud_rate(t, a), b);
}

/// Setting a character size and reading it back gives that size.
pub proof fn lemma_char_size_round_trip(t: Termios, c: CharSize)
    ensures
        char_size_of(with_char_size(t, c)) == Some(c),
{
    assert(0u32 & !0o60u32 == 0 && 0o20u32 & !0o60u32 == 0 && 0o40u32 & !0o60u32 == 0
        && 0o60u32 & !0o60u32 == 0) by (bit_vector);
    match c {
        CharSize::Bits5 => lemma_field_read_back(t.c_cflag, CSIZE, CS5),
        CharSize::Bits6 => lemma_field_read_back(t.c_cflag, CSIZE, CS6),
        CharSize::Bits7 => lemma_field_read_back(t.c_cflag, CSIZE, CS7),
        CharSize::Bits8 => lemma_field_read_back(t.c_cflag, CSIZE, CS8),
    }
}

/// Setting the character size to `a` and then to `b` leaves the size `b`.
pub proof fn lemma_char_size_overwrite(t: Termios, a: CharSize, b: CharSize)
    ensures
        char_size_of(with_char_size(with_char_size(t, a), b)) == Some(b),
{
    lemma_char_size_round_trip(with_char_size(t, a), b);
}

/// Setting a parity and reading it back gives that parity.
pub proof fn lemma_parity_round_trip(t: Termios, p: Parity)
    ensures
        parity_of(with_parity(t, p)) == p,
{
    assert(PARENB & (PARENB | PARODD) == PARENB && PARODD & (PARENB | PARODD) == PARODD
        && PARENB & PARODD == 0) by (bit_vector);
    match p {
        Parity::ParityNone => {
            lemma_bit_cleared(t.c_cflag, PARENB | PARODD, PARENB);
        },
        Parity::ParityOdd => {
            lemma_bit_set(t.c_cflag, PARENB | PARODD, PARENB);
            lemma_bit_set(t.c_cflag, PARENB | PARODD, PARODD);
        },
        Parity::ParityEven => {
            lemma_and_self(PARENB);
            lemma_and_self(PARODD);
            lemma_bit_set(t.c_cflag & !PARODD, PARENB, PARENB);
            lemma_bit_cleared(t.c_cflag, PARODD, PARODD);
            lemma_disjoint_bits(t.c_cflag & !PARODD, PARENB, PARODD);
        },
    }
}

/// Setting the parity to `a` and then to `b` leaves the parity `b`.
pub proof fn lemma_parity_overwrite(t: Termios, a: Parity, b: Parity)
    ensures
        parity_of(with_parity(with_parity(t, a), b)) == b,
{
    lemma_parity_round_trip(with_parity(t, a), b);
}

/// Setting the stop bits and reading them back gives them.
pub proof fn lemma_stop_bits_round_trip(t: Termios, s: StopBits)
    ensures
        stop_bits_of(with_stop_bits(t, s)) == s,
{
    lemma_and_self(CSTOPB);
    match s {
        StopBits::Stop1 => lemma_bit_cleared(t.c_cflag, CSTOPB, CSTOPB),
        StopBits::Stop2 => lemma_bit_set(t.c_cflag, CSTOPB, CSTOPB),
    }
}

/// Setting the stop bits to `a` and then to `b` leaves them `b`.
pub proof fn lemma_stop_bits_overwrite(t: Termios, a: StopBits, b: StopBits)
    ensures
        stop_bits_of(with_stop_bits(with_stop_bits(t, a), b)) == b,
{
    lemma_stop_bits_round_trip(with_stop_bits(t, a), b);
}

/// Setting a flow control mode and reading it back gives that mode, except
/// that software flow control reads as hardware while the hardware flag,
/// which setting software flow control leaves alone, is still on.
pub proof fn lemma_flow_control_round_trip(t: Termios, f: FlowControl)
    requires
        !(f == FlowControl::FlowSoftware && flow_control_of(t) == FlowControl::FlowHardware),
    ensures
        flow_control_of(with_flow_control(t, f)) == f,
{
    assert(IXON & (IXON | IXOFF) == IXON && IXON != 0 && (IXON | IXOFF) != 0) by (bit_vector);
    lemma_and_self(CRTSCTS);
    lemma_and_self(IXON | IXOFF);
    match f {
        FlowControl::FlowNone => {
            lemma_bit_cleared(t.c_cflag, CRTSCTS, CRTSCTS);
            lemma_bit_cleared(t.c_iflag, IXON | IXOFF, IXON | IXOFF);
        },
        FlowControl::FlowSoftware => {
            lemma_bit_set(t.c_iflag, IXON | IXOFF, IXON | IXOFF);
        },
        FlowControl::FlowHardware => lemma_bit_set(t.c_cflag, CRTSCTS, CRTSCTS),
    }
}

/// Setting the flow control to `a` and then to `b` leaves it `b`, except when
/// `b` is software flow control and the hardware flag is still on after `a`.
pub proof fn lemma_flow_control_overwrite(t: Termios, a: FlowControl, b: FlowControl)
    requires
        !(b == FlowControl::FlowSoftware && flow_control_of(with_flow_control(t, a))
            == FlowControl::FlowHardware),
    ensures
        flow_control_of(with_flow_control(with_flow_control(t, a), b)) == b,
{
    lemma_flow_control_round_trip(with_flow_control(t, a), b);
}

/// Applying the same value twice leaves the attributes as applying it once,
/// for each of the five attributes.
pub proof fn lemma_apply_twice(
    t: Termios,
    b: BaudRate,
    c: CharSize,
    p: Parity,
    s: StopBits,
    f: FlowControl,
)
    ensures
        with_baud_rate(with_baud_rate(t, b), b) == with_baud_rate(t, b),
        with_char_size(with_char_size(t, c), c) == with_char_size(t, c),
        with_parity(with_parity(t, p), p) == with_parity(t, p),
        with_stop_bits(with_stop_bits(t, s), s) == with_stop_bits(t, s),
        with_flow_control(with_flow_control(t, f), f) == with_flow_control(t, f),
{
    match speed_code(b) {
        Some(code) => {
            lemma_set_twice(t.c_iflag, IBAUD0);
            lemma_field_write_twice(t.c_cflag, CBAUD, code);
        },
        None => lemma_field_write_twice(t.c_cflag, CBAUD, BOTHER),
    }
    lemma_field_write_twice(t.c_cflag, CSIZE, CS5);
    lemma_field_write_twice(t.c_cflag, CSIZE, CS6);
    lemma_field_write_twice(t.c_cflag, CSIZE, CS7);
    lemma_field_write_twice(t.c_cflag, CSIZE, CS8);
    lemma_set_twice(t.c_cflag, PARENB | PARODD);
    lemma_field_write_twice(t.c_iflag, INPCK, IGNPAR);
    lemma_set_clear_twice(t.c_iflag, INPCK, IGNPAR);
    lemma_field_write_twice(t.c_cflag, PARODD, PARENB);
    lemma_set_twice(t.c_cflag, CSTOPB);
    lemma_set_twice(t.c_iflag, IXON | IXOFF);
    lemma_set_twice(t.c_cflag, CRTSCTS);
}

/// Putting attributes in raw binary mode changes none of the five decoded values.
pub proof fn lemma_raw_mode_keeps_attributes(r: Termios, t: Termios)
    requires
        is_raw_mode_of(r, t),
    ensures
        baud_rate_of(r) == baud_rate_of(t),
        char_size_of(r) == char_size_of(t),
        parity_of(r) == parity_of(t),
        stop_bits_of(r) == stop_bits_of(t),
        flow_control_of(r) == flow_control_of(t),
{
    let k = CREAD | CLOCAL;
    assert(k & CBAUD == 0 && k & CSIZE == 0 && k & PARENB == 0 && k & PARODD == 0 && k & CSTOPB
        == 0 && k & CRTSCTS == 0) by (bit_vector)
        requires
            k == CREAD | CLOCAL,
    ;
    assert(RAW_CLEARED_IFLAG & IBAUD0 == 0 && RAW_CLEARED_IFLAG & (IXON | IXOFF) == 0)
        by (bit_vector);
    lemma_disjoint_bits(t.c_cflag, k, CBAUD);
    lemma_disjoint_bits(t.c_cflag, k, CSIZE);
    lemma_disjoint_bits(t.c_cflag, k, PARENB);
    lemma_disjoint_bits(t.c_cflag, k, PARODD);
    lemma_disjoint_bits(t.c_cflag, k, CSTOPB);
    lemma_disjoint_bits(t.c_cflag, k, CRTSCTS);
    lemma_disjoint_bits(t.c_iflag, RAW_CLEARED_IFLAG, IBAUD0);
    lemma_disjoint_bits(t.c_iflag, RAW_CLEARED_IFLAG, IXON | IXOFF);
}

} // verus!
