use serial_tty::flags::{Termios, BOTHER, CBAUD, CRTSCTS, IXOFF, IXON, VMIN, VTIME};
use serial_tty::settings::TTYSettings;
use serial_tty::types::BaudRate::{
    Baud110, Baud115200, Baud1200, Baud19200, Baud2400, Baud300, Baud38400, Baud4800, Baud57600,
    Baud600, Baud9600, BaudOther,
};
use serial_tty::types::CharSize::{Bits5, Bits6, Bits7, Bits8};
use serial_tty::types::Error;
use serial_tty::types::FlowControl::{FlowHardware, FlowNone, FlowSoftware};
use serial_tty::types::Parity::{ParityEven, ParityNone, ParityOdd};
use serial_tty::types::StopBits::{Stop1, Stop2};

fn default_settings() -> TTYSettings {
    TTYSettings::new(Termios::zeroed())
}

#[test]
fn tty_settings_sets_custom_baud_rate() {
    let mut settings = default_settings();

    settings.set_baud_rate(BaudOther(250000)).unwrap();
    assert_eq!(settings.baud_rate(), Some(BaudOther(250000)));
}

#[test]
fn tty_settings_sets_baud_rate() {
    let mut settings = default_settings();

    settings.set_baud_rate(Baud600).unwrap();
    assert_eq!(settings.baud_rate(), Some(Baud600));
}

#[test]
fn tty_settings_overwrites_baud_rate() {
    let mut settings = default_settings();

    settings.set_baud_rate(Baud600).unwrap();
    settings.set_baud_rate(Baud1200).unwrap();
    assert_eq!(settings.baud_rate(), Some(Baud1200));
}

#[test]
fn tty_settings_sets_char_size() {
    let mut settings = default_settings();

    settings.set_char_size(Bits8);
    assert_eq!(settings.char_size(), Some(Bits8));
}

#[test]
fn tty_settings_overwrites_char_size() {
    let mut settings = default_settings();

    settings.set_char_size(Bits8);
    settings.set_char_size(Bits7);
    assert_eq!(settings.char_size(), Some(Bits7));
}

#[test]
fn tty_settings_sets_parity_even() {
    let mut settings = default_settings();

    settings.set_parity(ParityEven);
    assert_eq!(settings.parity(), Some(ParityEven));
}

#[test]
fn tty_settings_sets_parity_odd() {
    let mut settings = default_settings();

    settings.set_parity(ParityOdd);
    assert_eq!(settings.parity(), Some(ParityOdd));
}

#[test]
fn tty_settings_sets_parity_none() {
    let mut settings = default_settings();

    settings.set_parity(ParityEven);
    settings.set_parity(ParityNone);
    assert_eq!(settings.parity(), Some(ParityNone));
}

#[test]
fn tty_settings_sets_stop_bits_1() {
    let mut settings = default_settings();

    settings.set_stop_bits(Stop2);
    settings.set_stop_bits(Stop1);
    assert_eq!(settings.stop_bits(), Some(Stop1));
}

#[test]
fn tty_settings_sets_stop_bits_2() {
    let mut settings = default_settings();

    settings.set_stop_bits(Stop1);
    settings.set_stop_bits(Stop2);
    assert_eq!(settings.stop_bits(), Some(Stop2));
}

#[test]
fn tty_settings_sets_flow_control_software() {
    let mut settings = default_settings();

    settings.set_flow_control(FlowSoftware);
    assert_eq!(settings.flow_control(), Some(FlowSoftware));
}

#[test]
fn tty_settings_sets_flow_control_hardware() {
    let mut settings = default_settings();

    settings.set_flow_control(FlowHardware);
    assert_eq!(settings.flow_control(), Some(FlowHardware));
}

#[test]
fn tty_settings_sets_flow_control_none() {
    let mut settings = default_settings();

    settings.set_flow_control(FlowHardware);
    settings.set_flow_control(FlowNone);
    assert_eq!(settings.flow_control(), Some(FlowNone));
}

#[test]
fn every_standard_rate_round_trips() {
    let rates = [
        Baud110, Baud300, Baud600, Baud1200, Baud2400, Baud4800, Baud9600, Baud19200, Baud38400,
        Baud57600, Baud115200,
    ];
    for b in rates {
        let mut settings = default_settings();
        settings.set_baud_rate(b).unwrap();
        assert_eq!(settings.baud_rate(), Some(b));
        assert_ne!(settings.termios.c_cflag & CBAUD, BOTHER);
    }
}

#[test]
fn legacy_native_rates_use_speed_codes() {
    for r in [50u32, 75, 134, 150, 200, 1800, 230400] {
        let mut settings = default_settings();
        settings.set_baud_rate(BaudOther(r)).unwrap();
        assert_eq!(settings.baud_rate(), Some(BaudOther(r)));
        assert_ne!(settings.termios.c_cflag & CBAUD, BOTHER);
    }
}

#[test]
fn custom_rates_round_trip_through_the_escape() {
    for r in [1u32, 110, 250000, 1_000_000, u32::MAX] {
        let mut settings = default_settings();
        settings.set_baud_rate(BaudOther(r)).unwrap();
        assert_eq!(settings.termios.c_cflag & CBAUD, BOTHER);
        assert_eq!(settings.termios.c_ispeed, r);
        assert_eq!(settings.termios.c_ospeed, r);
        assert_eq!(settings.baud_rate(), Some(BaudOther(r)));
    }
}

#[test]
fn speed_codes_are_exact() {
    let mut settings = default_settings();
    settings.set_baud_rate(Baud9600).unwrap();
    assert_eq!(settings.termios.c_cflag & CBAUD, 0o15);
    settings.set_baud_rate(Baud115200).unwrap();
    assert_eq!(settings.termios.c_cflag & CBAUD, 0o10002);
    assert_eq!(settings.termios.c_ispeed, 0o10002);
}

#[test]
fn custom_rate_without_escape_is_invalid_and_changes_nothing() {
    let mut settings = default_settings();
    settings.set_baud_rate(Baud9600).unwrap();
    let before = settings.termios;
    assert_eq!(settings.set_baud_rate_on(BaudOther(250000), false), Err(Error::InvalidInput));
    assert_eq!(settings.termios.c_cflag, before.c_cflag);
    assert_eq!(settings.termios.c_ispeed, before.c_ispeed);
    assert_eq!(settings.baud_rate(), Some(Baud9600));
    assert_eq!(settings.set_baud_rate_on(Baud4800, false), Ok(()));
    assert_eq!(settings.baud_rate(), Some(Baud4800));
}

#[test]
fn mismatched_custom_speeds_are_unrepresentable() {
    let mut settings = default_settings();
    settings.set_baud_rate(BaudOther(250000)).unwrap();
    settings.termios.c_ispeed = 9600;
    assert_eq!(settings.baud_rate(), None);
}

#[test]
fn zero_input_speed_is_unrepresentable() {
    let mut settings = default_settings();
    settings.set_baud_rate(Baud9600).unwrap();
    settings.termios.c_iflag |= serial_tty::flags::IBAUD0;
    assert_eq!(settings.baud_rate(), None);
}

#[test]
fn unknown_speed_code_is_unrepresentable() {
    let settings = default_settings();
    assert_eq!(settings.baud_rate(), None);
}

#[test]
fn applying_settings_twice_equals_once() {
    let mut once = default_settings();
    once.set_baud_rate(Baud19200).unwrap();
    once.set_char_size(Bits6);
    once.set_parity(ParityOdd);
    once.set_stop_bits(Stop2);
    once.set_flow_control(FlowSoftware);
    let mut twice = once;
    twice.set_baud_rate(Baud19200).unwrap();
    twice.set_char_size(Bits6);
    twice.set_parity(ParityOdd);
    twice.set_stop_bits(Stop2);
    twice.set_flow_control(FlowSoftware);
    assert_eq!(twice.termios.c_cflag, once.termios.c_cflag);
    assert_eq!(twice.termios.c_iflag, once.termios.c_iflag);
    assert_eq!(twice.baud_rate(), Some(Baud19200));
    assert_eq!(twice.char_size(), Some(Bits6));
    assert_eq!(twice.parity(), Some(ParityOdd));
    assert_eq!(twice.stop_bits(), Some(Stop2));
    assert_eq!(twice.flow_control(), Some(FlowSoftware));
}

#[test]
fn every_char_size_overwrites() {
    for a in [Bits5, Bits6, Bits7, Bits8] {
        for b in [Bits5, Bits6, Bits7, Bits8] {
            let mut settings = default_settings();
            settings.set_char_size(a);
            settings.set_char_size(b);
            assert_eq!(settings.char_size(), Some(b));
        }
    }
}

#[test]
fn every_parity_overwrites() {
    for a in [ParityNone, ParityOdd, ParityEven] {
        for b in [ParityNone, ParityOdd, ParityEven] {
            let mut settings = default_settings();
            settings.set_parity(a);
            settings.set_parity(b);
            assert_eq!(settings.parity(), Some(b));
        }
    }
}

#[test]
fn parity_sets_input_checking() {
    let mut settings = default_settings();
    settings.set_parity(ParityOdd);
    assert_eq!(settings.termios.c_iflag & 0o24, 0o20);
    settings.set_parity(ParityNone);
    assert_eq!(settings.termios.c_iflag & 0o24, 0o4);
}

#[test]
fn software_flow_control_keeps_hardware_flag() {
    let mut settings = default_settings();
    settings.set_flow_control(FlowHardware);
    settings.set_flow_control(FlowSoftware);
    assert_ne!(settings.termios.c_cflag & CRTSCTS, 0);
    assert_eq!(settings.termios.c_iflag & (IXON | IXOFF), IXON | IXOFF);
    assert_eq!(settings.flow_control(), Some(FlowHardware));
    settings.set_flow_control(FlowNone);
    assert_eq!(settings.flow_control(), Some(FlowNone));
    settings.set_flow_control(FlowSoftware);
    assert_eq!(settings.flow_control(), Some(FlowSoftware));
}

#[test]
fn raw_mode_keeps_the_five_values() {
    let mut s0 = default_settings();
    s0.set_baud_rate(Baud57600).unwrap();
    s0.set_char_size(Bits7);
    s0.set_parity(ParityEven);
    s0.set_stop_bits(Stop2);
    s0.set_flow_control(FlowHardware);
    let mut t = s0.termios;
    t.c_lflag = 0o100073;
    t.c_oflag = 1;
    t.c_iflag |= 0o701;
    t.c_cc[VMIN] = 1;
    t.c_cc[VTIME] = 7;
    let raw = TTYSettings::from_device(t);
    assert_eq!(raw.termios.c_lflag, 0);
    assert_eq!(raw.termios.c_oflag, 0);
    assert_eq!(raw.termios.c_iflag & 0o701, 0);
    assert_eq!(raw.termios.c_cflag & 0o4200, 0o4200);
    assert_eq!(raw.termios.c_cc[VMIN], 0);
    assert_eq!(raw.termios.c_cc[VTIME], 0);
    assert_eq!(raw.baud_rate(), s0.baud_rate());
    assert_eq!(raw.char_size(), s0.char_size());
    assert_eq!(raw.parity(), s0.parity());
    assert_eq!(raw.stop_bits(), s0.stop_bits());
    assert_eq!(raw.flow_control(), s0.flow_control());
}

#[test]
fn baud_change_and_restore() {
    let mut s0 = default_settings();
    s0.set_baud_rate(Baud9600).unwrap();
    let mut changed = s0;
    changed.set_baud_rate(Baud115200).unwrap();
    assert_eq!(changed.baud_rate(), Some(Baud115200));
    let restored = s0;
    assert_eq!(restored.baud_rate(), Some(Baud9600));
}
