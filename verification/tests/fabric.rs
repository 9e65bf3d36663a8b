//! End-to-end over a real control channel: an envelope and its descriptor
//! travel through an actual Unix-domain datagram pair, and the handed-off
//! pipe is read on the far side.

use std::io::{IoSlice, IoSliceMut};

use nix::sys::socket::{recvmsg, sendmsg, ControlMessage, ControlMessageOwned, MsgFlags};

use vermilionrc::control::Control;
use vermilionrc::init::output_message;
use vermilionrc::msg::Message;
use vermilionrc::pipe::Pipe;
use vermilionrc::procs::logger::{logger_step, ReadEvent};

#[test]
fn pipe_handoff_reaches_the_logger() {
    let ctl = Control::new().unwrap();
    let (ctl_r, ctl_w) = ctl.split();
    let pipe = Pipe::new().unwrap();
    let (pr, pw) = pipe.split();
    let my_pid = Message::my_pid();

    // the init side: hand the read end to the logger
    let msg = output_message(String::from("init-test"), my_pid, my_pid, 0, pr).unwrap();
    let (bytes, fd) = msg.into_send_parts().unwrap();
    let fd = fd.unwrap();
    let iov = [IoSlice::new(&bytes)];
    let fds = [fd];
    let cmsgs = [ControlMessage::ScmRights(&fds)];
    sendmsg::<()>(ctl_w.as_raw_fd(), &iov, &cmsgs, MsgFlags::empty(), None).unwrap();
    // the kernel holds the rights now: the local duplicate is closed
    nix::unistd::close(fd).unwrap();

    // write the line and close the write end
    pw.write(b"Vermilion says hello to logger\n").unwrap();
    let pwfd = pw.as_raw_fd();
    assert_eq!(pw.dispose(), Some(pwfd));

    // the logger side: one datagram, one descriptor
    let mut buf = vec![0u8; 1024];
    let mut cmsg_buf: Vec<u8> = Vec::with_capacity(64);
    let (n, received_fd) = {
        let mut iov = [IoSliceMut::new(&mut buf)];
        let rmsg =
            recvmsg::<()>(ctl_r.as_raw_fd(), &mut iov, Some(&mut cmsg_buf), MsgFlags::empty())
                .unwrap();
        let mut got = None;
        for c in rmsg.cmsgs() {
            if let ControlMessageOwned::ScmRights(v) = c {
                got = Some(v[0]);
            }
        }
        (rmsg.bytes, got.unwrap())
    };
    let mut message = Message::from_received(&buf[..n], Some(received_fd)).unwrap();
    assert_eq!(message.metadata().proc_name(), Some("init-test"));
    assert_eq!(message.metadata().pid(), Some(my_pid));
    let pid = message.metadata().pid().unwrap();
    let reader = message.take_read_pipe_end().unwrap();

    // copy the source line by line
    let mut lbuf = [0u8; 256];
    let ln = reader.read(&mut lbuf).unwrap();
    let text = std::str::from_utf8(&lbuf[..ln]).unwrap();
    let line = text.strip_suffix('\n').unwrap();
    let step = logger_step("init-test", pid, ReadEvent::Line(String::from(line)));
    assert_eq!(
        step.line.as_deref(),
        Some(format!("LOG:init-test[{}]: Vermilion says hello to logger", my_pid).as_str())
    );
    assert!(!step.done);

    // the write end is closed: end of file ends the task
    let n2 = reader.read(&mut lbuf).unwrap();
    assert_eq!(n2, 0);
    let step = logger_step("init-test", pid, ReadEvent::Eof);
    assert_eq!(step.line.as_deref(), Some(format!("{} LOGGING SHUTDOWN", my_pid).as_str()));
    assert!(step.done);

    let rfd = reader.as_raw_fd();
    assert_eq!(reader.dispose(), Some(rfd));
    let crfd = ctl_r.as_raw_fd();
    assert_eq!(ctl_r.dispose(), Some(crfd));
    let cwfd = ctl_w.as_raw_fd();
    assert_eq!(ctl_w.dispose(), Some(cwfd));
}

#[test]
fn fabric_descriptors_are_conserved_across_a_handoff() {
    // one live pipe: two open ends
    let pipe = Pipe::new().unwrap();
    let (pr, pw) = pipe.split();
    let (rfd, wfd) = (pr.as_raw_fd(), pw.as_raw_fd());
    assert!(nix::sys::stat::fstat(rfd).is_ok());
    assert!(nix::sys::stat::fstat(wfd).is_ok());

    // attaching an end to a message moves the descriptor, it stays open
    let meta_pid = Message::my_pid();
    let msg = output_message(String::from("t"), meta_pid, meta_pid, 0, pr).unwrap();
    assert!(nix::sys::stat::fstat(rfd).is_ok());

    // dropping the message closes its descriptor: nothing leaks
    assert_eq!(msg.dispose(), Some(rfd));
    assert!(nix::sys::stat::fstat(rfd).is_err());

    // closing the remaining end empties the tree
    assert_eq!(pw.dispose(), Some(wfd));
    assert!(nix::sys::stat::fstat(wfd).is_err());
}
