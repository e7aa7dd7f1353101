use linux::fd::{
    description_flags, duplicate_result, is_close_on_exec, set_close_on_exec_flags, stderr,
    stdin, stdout, DescriptionFlags, FdContainer, FdIo,
};
use linux::kty::{FD_CLOEXEC, O_NONBLOCK};
use linux::result::Errno;
use linux::timer::Timer;

#[test]
fn standard_streams() {
    assert_eq!(stdin(), FdIo(0));
    assert_eq!(stdout(), FdIo(1));
    assert_eq!(stderr(), FdIo(2));
    assert!(!stdin().is_owned());
}

#[test]
fn fdio_container() {
    let io = FdIo::from_owned(7);
    // an FdIo never owns its descriptor, however it was made
    assert!(!io.is_owned());
    assert_eq!(io.borrow(), 7);
    assert_eq!(io.as_fdio(), FdIo(7));
    let raw = <i32 as FdContainer>::from_borrowed(3);
    assert_eq!(raw.borrow(), 3);
}

#[test]
fn close_on_exec_decoding() {
    assert_eq!(is_close_on_exec(-9), Err(Errno(9)));
    assert_eq!(is_close_on_exec(0), Ok(false));
    assert_eq!(is_close_on_exec(FD_CLOEXEC), Ok(true));
    assert_eq!(is_close_on_exec(FD_CLOEXEC | 4), Ok(true));
}

#[test]
fn close_on_exec_flag_update() {
    assert_eq!(set_close_on_exec_flags(0, true), FD_CLOEXEC);
    assert_eq!(set_close_on_exec_flags(FD_CLOEXEC, false), 0);
    // other bits survive the update
    assert_eq!(set_close_on_exec_flags(4 | FD_CLOEXEC, false), 4);
    assert_eq!(set_close_on_exec_flags(4, true), 4 | FD_CLOEXEC);
}

#[test]
fn description_flags_decoding() {
    assert_eq!(description_flags(-22), Err(Errno(22)));
    assert_eq!(description_flags(O_NONBLOCK), Ok(DescriptionFlags(O_NONBLOCK)));
}

#[test]
fn duplication_decoding() {
    let r: Result<FdIo, Errno> = duplicate_result(5);
    assert_eq!(r.unwrap().borrow(), 5);
    let r: Result<FdIo, Errno> = duplicate_result(-24);
    assert_eq!(r.err(), Some(Errno(24)));
    // a duplicate wrapped by an owning type owns the new descriptor
    let r: Result<Timer, Errno> = duplicate_result(6);
    let t = r.unwrap_or_else(|_| panic!("non-negative result must wrap"));
    assert!(t.is_owned());
    assert_eq!(t.borrow(), 6);
}
