use linux::kty::{
    _IO, _IOC, _IOC_DIR, _IOC_NR, _IOC_SIZE, _IOC_TYPE, _IOR, _IOW, _IOWR, termios2, TCGETS2,
    TCSETS2, TCSETSF2, TCSETSW2, TIOCGDEV, TIOCGEXCL, TIOCGPKT, TIOCGPTLCK, TIOCGPTN, TIOCSIG,
    TIOCSPTLCK,
};

#[test]
fn ioctl_terminal_numbers_exact() {
    // the well-known x86-64 values of the termios2 requests
    assert_eq!(TCGETS2(), 0x802C542A);
    assert_eq!(TCSETS2(), 0x402C542B);
    assert_eq!(TCSETSW2(), 0x402C542C);
    assert_eq!(TCSETSF2(), 0x402C542D);
    assert_eq!(TIOCGPTN(), 0x80045430);
    assert_eq!(TIOCSPTLCK(), 0x40045431);
    assert_eq!(TIOCGDEV(), 0x80045432);
    assert_eq!(TIOCSIG(), 0x40045436);
    assert_eq!(TIOCGPKT(), 0x80045438);
    assert_eq!(TIOCGPTLCK(), 0x80045439);
    assert_eq!(TIOCGEXCL(), 0x80045440);
}

#[test]
fn ioctl_fields_round_trip() {
    let nr = _IOC(2, 84, 0x2A, 44);
    assert_eq!(_IOC_DIR(nr), 2);
    assert_eq!(_IOC_TYPE(nr), 84);
    assert_eq!(_IOC_NR(nr), 0x2A);
    assert_eq!(_IOC_SIZE(nr), 44);
    let nr = _IO(7, 9);
    assert_eq!(_IOC_DIR(nr), 0);
    assert_eq!(_IOC_TYPE(nr), 7);
    assert_eq!(_IOC_NR(nr), 9);
    assert_eq!(_IOC_SIZE(nr), 0);
}

#[test]
fn ioctl_direction_encodings() {
    assert_eq!(_IOR::<u32>(1, 2), _IOC(2, 1, 2, 4));
    assert_eq!(_IOW::<u32>(1, 2), _IOC(1, 1, 2, 4));
    assert_eq!(_IOWR::<u32>(1, 2), _IOC(3, 1, 2, 4));
    assert_eq!(_IOR::<termios2>(84, 0x2A), TCGETS2());
}
