use serial_tty::flags;

#[test]
fn mode_bits_match_termios() {
    assert_eq!(flags::IGNBRK, termios::IGNBRK);
    assert_eq!(flags::IGNPAR, termios::IGNPAR);
    assert_eq!(flags::INPCK, termios::INPCK);
    assert_eq!(flags::INLCR, termios::INLCR);
    assert_eq!(flags::IGNCR, termios::IGNCR);
    assert_eq!(flags::ICRNL, termios::ICRNL);
    assert_eq!(flags::IXON, termios::IXON);
    assert_eq!(flags::IXOFF, termios::IXOFF);
    assert_eq!(flags::OPOST, termios::OPOST);
    assert_eq!(flags::CSIZE, termios::CSIZE);
    assert_eq!(flags::CS5, termios::CS5);
    assert_eq!(flags::CS6, termios::CS6);
    assert_eq!(flags::CS7, termios::CS7);
    assert_eq!(flags::CS8, termios::CS8);
    assert_eq!(flags::CSTOPB, termios::CSTOPB);
    assert_eq!(flags::CREAD, termios::CREAD);
    assert_eq!(flags::PARENB, termios::PARENB);
    assert_eq!(flags::PARODD, termios::PARODD);
    assert_eq!(flags::CLOCAL, termios::CLOCAL);
    assert_eq!(flags::CBAUD, termios::os::linux::CBAUD);
    assert_eq!(flags::BOTHER, termios::os::linux::CBAUDEX);
    assert_eq!(flags::CRTSCTS, termios::os::linux::CRTSCTS);
    assert_eq!(flags::ISIG, termios::ISIG);
    assert_eq!(flags::ICANON, termios::ICANON);
    assert_eq!(flags::ECHO, termios::ECHO);
    assert_eq!(flags::ECHOE, termios::ECHOE);
    assert_eq!(flags::ECHOK, termios::ECHOK);
    assert_eq!(flags::ECHONL, termios::ECHONL);
    assert_eq!(flags::IEXTEN, termios::IEXTEN);
    assert_eq!(flags::VMIN, termios::VMIN);
    assert_eq!(flags::VTIME, termios::VTIME);
    assert_eq!(flags::NCCS, termios::os::linux::NCCS);
    assert_eq!(flags::TCIOFLUSH, termios::TCIOFLUSH);
}

#[test]
fn speed_codes_match_termios() {
    assert_eq!(flags::B0, termios::B0);
    assert_eq!(flags::B50, termios::B50);
    assert_eq!(flags::B75, termios::B75);
    assert_eq!(flags::B110, termios::B110);
    assert_eq!(flags::B134, termios::B134);
    assert_eq!(flags::B150, termios::B150);
    assert_eq!(flags::B200, termios::B200);
    assert_eq!(flags::B300, termios::B300);
    assert_eq!(flags::B600, termios::B600);
    assert_eq!(flags::B1200, termios::B1200);
    assert_eq!(flags::B1800, termios::B1800);
    assert_eq!(flags::B2400, termios::B2400);
    assert_eq!(flags::B4800, termios::B4800);
    assert_eq!(flags::B9600, termios::B9600);
    assert_eq!(flags::B19200, termios::B19200);
    assert_eq!(flags::B38400, termios::B38400);
    assert_eq!(flags::B57600, termios::os::linux::B57600);
    assert_eq!(flags::B115200, termios::os::linux::B115200);
    assert_eq!(flags::B230400, termios::os::linux::B230400);
}

#[test]
fn modem_lines_match_ioctl() {
    assert_eq!(flags::TIOCM_DTR, ioctl_rs::TIOCM_DTR);
    assert_eq!(flags::TIOCM_RTS, ioctl_rs::TIOCM_RTS);
    assert_eq!(flags::TIOCM_CTS, ioctl_rs::TIOCM_CTS);
    assert_eq!(flags::TIOCM_CD, ioctl_rs::TIOCM_CD);
    assert_eq!(flags::TIOCM_RI, ioctl_rs::TIOCM_RI);
    assert_eq!(flags::TIOCM_DSR, ioctl_rs::TIOCM_DSR);
}
