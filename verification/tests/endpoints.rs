use nix::sys::resource::{getrlimit, setrlimit, Resource};
use vermilionrc::pipe::{End, Pipe, PipeEnd, Read, Write};
use vermilionrc::control::{Control, CtlEnd};
use vermilionrc::ErrorKind;

#[test]
fn new_pipe_has_two_distinct_open_ends() {
    let pipe = Pipe::new().unwrap();
    let (r, w) = pipe.split();
    assert_ne!(r.as_raw_fd(), w.as_raw_fd());
    assert!(nix::sys::stat::fstat(r.as_raw_fd()).is_ok());
    assert!(nix::sys::stat::fstat(w.as_raw_fd()).is_ok());
    let rfd = r.as_raw_fd();
    let wfd = w.as_raw_fd();
    assert_eq!(r.dispose(), Some(rfd));
    assert_eq!(w.dispose(), Some(wfd));
}

#[test]
fn new_control_has_two_distinct_open_ends() {
    let ctl = Control::new().unwrap();
    let (r, w) = ctl.split();
    assert_ne!(r.as_raw_fd(), w.as_raw_fd());
    assert!(nix::sys::stat::fstat(r.as_raw_fd()).is_ok());
    assert!(nix::sys::stat::fstat(w.as_raw_fd()).is_ok());
    let rfd = r.as_raw_fd();
    let wfd = w.as_raw_fd();
    assert_eq!(r.dispose(), Some(rfd));
    assert_eq!(w.dispose(), Some(wfd));
}

#[test]
fn forgotten_pipe_end_is_not_closed_on_drop() {
    let pipe = Pipe::new().unwrap();
    let (mut r, w) = pipe.split();
    let rfd = r.as_raw_fd();
    r.forget();
    assert_eq!(r.as_raw_fd(), -1);
    assert_eq!(r.dispose(), None);
    // the descriptor is still open: forgetting detached ownership
    assert!(nix::sys::stat::fstat(rfd).is_ok());
    nix::unistd::close(rfd).unwrap();
    let wfd = w.as_raw_fd();
    assert_eq!(w.dispose(), Some(wfd));
}

#[test]
fn forgotten_control_end_is_not_closed_on_drop() {
    let ctl = Control::new().unwrap();
    let (mut r, w) = ctl.split();
    let rfd = r.as_raw_fd();
    r.forget();
    assert_eq!(r.dispose(), None);
    assert!(nix::sys::stat::fstat(rfd).is_ok());
    nix::unistd::close(rfd).unwrap();
    let wfd = w.as_raw_fd();
    assert_eq!(w.dispose(), Some(wfd));
}

#[test]
fn std_stream_descriptors_are_never_closed_on_drop() {
    for fd in 0..3 {
        let end: PipeEnd<Read> = PipeEnd::from_raw(fd);
        assert_eq!(end.dispose(), None);
        let end: CtlEnd<Write> = CtlEnd::from_raw(fd);
        assert_eq!(end.dispose(), None);
    }
    let end: PipeEnd<Write> = PipeEnd::from_raw(-1);
    assert_eq!(end.dispose(), None);
}

#[test]
fn close_is_idempotent() {
    let pipe = Pipe::new().unwrap();
    let (mut r, w) = pipe.split();
    let rfd = r.as_raw_fd();
    assert!(r.close().is_ok());
    assert_eq!(r.as_raw_fd(), -1);
    assert!(r.close().is_ok());
    assert!(nix::sys::stat::fstat(rfd).is_err());
    let wfd = w.as_raw_fd();
    assert_eq!(w.dispose(), Some(wfd));
}

#[test]
fn dup_binds_the_target_slot() {
    let p1 = Pipe::new().unwrap();
    let (r1, w1) = p1.split();
    let p2 = Pipe::new().unwrap();
    let (mut r2, w2) = p2.split();
    let target = r2.as_raw_fd();
    let dup_end = r1.dup(target).unwrap();
    assert_eq!(dup_end.as_raw_fd(), target);
    // the old occupant of the slot is gone; detach its owner
    r2.forget();
    nix::unistd::write(w1.as_raw_fd(), b"xyz").unwrap();
    let mut buf = [0u8; 8];
    let n = nix::unistd::read(dup_end.as_raw_fd(), &mut buf).unwrap();
    assert_eq!(&buf[..n], b"xyz");
    let _ = dup_end.dispose();
    let _ = r1.dispose();
    let _ = w1.dispose();
    let _ = w2.dispose();
}

#[test]
fn dup_onto_a_closed_slot_is_a_sys_error() {
    let pipe = Pipe::new().unwrap();
    let (r, w) = pipe.split();
    let err = r.dup(999).unwrap_err();
    assert_eq!(err.kind, ErrorKind::SysError);
    let _ = r.dispose();
    let _ = w.dispose();
}

#[test]
fn replace_onto_own_slot_forgets_the_source() {
    let pipe = Pipe::new().unwrap();
    let (r, w) = pipe.split();
    let rfd = r.as_raw_fd();
    assert!(r.replace(rfd).is_ok());
    // the descriptor is still open: the move was a no-op
    assert!(nix::sys::stat::fstat(rfd).is_ok());
    nix::unistd::close(rfd).unwrap();
    let _ = w.dispose();
}

#[test]
fn take_reader_and_take_writer_keep_one_end() {
    let pipe = Pipe::new().unwrap();
    let r = pipe.take_reader();
    assert!(nix::sys::stat::fstat(r.as_raw_fd()).is_ok());
    let _ = r.dispose();
    let ctl = Control::new().unwrap();
    let w = ctl.take_writer();
    assert!(nix::sys::stat::fstat(w.as_raw_fd()).is_ok());
    let _ = w.dispose();
}

#[test]
fn descriptor_exhaustion_is_resource_exhausted() {
    let (soft, hard) = getrlimit(Resource::RLIMIT_NOFILE).unwrap();
    // leave no room for fresh descriptors
    setrlimit(Resource::RLIMIT_NOFILE, 4, hard).unwrap();
    let pipe_err = Pipe::new().unwrap_err();
    let ctl_err = Control::new().unwrap_err();
    setrlimit(Resource::RLIMIT_NOFILE, soft, hard).unwrap();
    assert_eq!(pipe_err.kind, ErrorKind::ResourceExhausted);
    assert_eq!(ctl_err.kind, ErrorKind::ResourceExhausted);
}

#[test]
fn pipe_ends_are_born_non_blocking() {
    let pipe = Pipe::new().unwrap();
    let (r, w) = pipe.split();
    let mut buf = [0u8; 4];
    // an empty non-blocking pipe reports back-pressure instead of hanging
    let err = r.read(&mut buf).unwrap_err();
    assert_eq!(err.kind, ErrorKind::WouldBlock);
    let _ = r.dispose();
    let _ = w.dispose();
}

#[test]
fn bytes_travel_from_write_end_to_read_end() {
    let pipe = Pipe::new().unwrap();
    let (r, w) = pipe.split();
    assert_eq!(w.write(b"ab").unwrap(), 2);
    let mut buf = [0u8; 4];
    let n = r.read(&mut buf).unwrap();
    assert_eq!(&buf[..n], b"ab");
    let _ = r.dispose();
    let _ = w.dispose();
}

#[test]
fn direction_markers_display_their_names() {
    assert_eq!(<Read as End>::display(), "Read");
    assert_eq!(<Write as End>::display(), "Write");
}
