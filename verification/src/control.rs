use vstd::prelude::*;

use crate::error::{Error, ErrorKind};
use crate::pipe::{closes_on_drop, End};
use crate::sys;
use core::marker::PhantomData;

verus! {

/// Exclusively owns one descriptor for one side of a connected Unix-domain
/// datagram socket pair used for control messages.
///
/// The stored descriptor is either an open file descriptor or the sentinel
/// -1, meaning "forgotten: do not close".
#[derive(Debug)]
pub struct CtlEnd<E: End> {
    raw_fd: i32,
    end: PhantomData<E>,
}

impl<E: End> CtlEnd<E> {
    /// The descriptor slot this endpoint owns.
    pub closed spec fn fd(&self) -> int {
        self.raw_fd as int
    }

    /// Reconstructs a control endpoint from a raw descriptor number, taking
    /// ownership of it. Used by a child process to reclaim the endpoint whose
    /// number it was handed on the argv.
    pub fn from_raw(raw_fd: i32) -> (r: CtlEnd<E>)
        ensures
            r.fd() == raw_fd,
    {
        CtlEnd { raw_fd, end: PhantomData }
    }

    pub fn as_raw_fd(&self) -> (r: i32)
        ensures
            r == self.fd(),
    {
        self.raw_fd
    }

    /// Detach ownership: the endpoint becomes forgotten, so neither a later
    /// `dispose` nor an explicit `close` will close the descriptor.
    pub fn forget(&mut self)
        ensures
            final(self).fd() == -1,
    {
        self.raw_fd = -1;
    }

    /// Take the raw descriptor out, leaving this endpoint forgotten.
    pub fn into_raw_fd(self) -> (r: i32)
        ensures
            r == self.fd(),
    {
        self.raw_fd
    }

    /// Close the underlying descriptor. Idempotent: closing a forgotten
    /// endpoint is a no-op; otherwise the endpoint is left forgotten, so the
    /// descriptor is closed at most once.
    pub fn close(&mut self) -> (r: Result<(), Error>)
        ensures
            old(self).fd() < 0 ==> r is Ok && final(self).fd() == old(self).fd(),
            old(self).fd() >= 0 ==> final(self).fd() == -1,
            r is Err ==> r->Err_0.kind == ErrorKind::SysError,
    {
        if self.raw_fd < 0 {
            return Ok(());
        }
        let res = sys::sys_close(self.raw_fd);
        self.raw_fd = -1;
        match res {
            Ok(()) => Ok(()),
            Err(_) => Err(Error::new(ErrorKind::SysError)),
        }
    }

    /// The drop policy applied explicitly on scope exit: closes the held
    /// descriptor exactly when `closes_on_drop` says so, and reports which
    /// descriptor was closed.
    pub fn dispose(self) -> (r: Option<i32>)
        ensures
            closes_on_drop(self.fd()) ==> (r matches Some(fd) && fd == self.fd()),
            !closes_on_drop(self.fd()) ==> r is None,
    {
        let raw_fd = self.raw_fd;
        if raw_fd >= 3 {
            let _ = sys::sys_close(raw_fd);
            Some(raw_fd)
        } else {
            None
        }
    }
}

/// A bidirectional control channel: a connected Unix-domain datagram socket
/// pair, typed as a (read end, write end) pair. Datagrams preserve message
/// boundaries, so each envelope is an indivisible unit of transfer.
#[derive(Debug)]
pub struct Control {
    read: CtlEnd<crate::pipe::Read>,
    write: CtlEnd<crate::pipe::Write>,
}

impl Control {
    pub closed spec fn read_fd(&self) -> int {
        self.read.fd()
    }

    pub closed spec fn write_fd(&self) -> int {
        self.write.fd()
    }

    /// Creates a connected control pair whose two ends are distinct open
    /// descriptors, both marked non-blocking. Fails with resource exhaustion
    /// when the system cannot allocate descriptors.
    pub fn new() -> (r: Result<Control, Error>)
        ensures
            r matches Ok(c) ==> c.read_fd() >= 0 && c.write_fd() >= 0 && c.read_fd()
                != c.write_fd(),
            r matches Err(e) ==> e.kind == ErrorKind::ResourceExhausted || e.kind
                == ErrorKind::SysError,
    {
        let (read_fd, write_fd) = match sys::sys_socketpair() {
            Ok(pair) => pair,
            Err(_) => {
                return Err(Error::new(ErrorKind::ResourceExhausted));
            },
        };
        let mut read: CtlEnd<crate::pipe::Read> = CtlEnd::from_raw(read_fd);
        let mut write: CtlEnd<crate::pipe::Write> = CtlEnd::from_raw(write_fd);
        match sys::sys_set_nonblocking(read_fd) {
            Ok(()) => (),
            Err(_) => {
                let _ = read.close();
                let _ = write.close();
                return Err(Error::new(ErrorKind::SysError));
            },
        }
        match sys::sys_set_nonblocking(write_fd) {
            Ok(()) => (),
            Err(_) => {
                let _ = read.close();
                let _ = write.close();
                return Err(Error::new(ErrorKind::SysError));
            },
        }
        Ok(Control { read, write })
    }

    /// Splits the pair into its two ends with independent ownership; the pair
    /// itself ceases to exist.
    pub fn split(self) -> (r: (CtlEnd<crate::pipe::Read>, CtlEnd<crate::pipe::Write>))
        ensures
            r.0.fd() == self.read_fd(),
            r.1.fd() == self.write_fd(),
    {
        (self.read, self.write)
    }

    /// Keeps only the write end; the read end is dropped under the usual
    /// drop policy.
    pub fn take_writer(self) -> (r: CtlEnd<crate::pipe::Write>)
        ensures
            r.fd() == self.write_fd(),
    {
        let (read, write) = self.split();
        let _ = read.dispose();
        write
    }

    /// Keeps only the read end; the write end is dropped under the usual
    /// drop policy.
    pub fn take_reader(self) -> (r: CtlEnd<crate::pipe::Read>)
        ensures
            r.fd() == self.read_fd(),
    {
        let (read, write) = self.split();
        let _ = write.dispose();
        read
    }
}

} // verus!
