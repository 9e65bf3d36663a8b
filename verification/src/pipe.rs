use vstd::prelude::*;

use crate::error::{Error, ErrorKind};
use crate::sys;
use core::marker::PhantomData;

verus! {

/// Marker for the receiving end of a channel.
#[derive(Clone, Copy, Debug)]
pub struct Read;

/// Marker for the sending end of a channel.
#[derive(Clone, Copy, Debug)]
pub struct Write;

/// Marker trait designating which end of a channel an endpoint represents.
pub trait End: Clone + Copy {
    /// The opposite direction: the reverse of a read end is a write end and
    /// vice versa.
    type Reverse;

    fn display() -> (s: &'static str);
}

impl End for Read {
    type Reverse = Write;

    fn display() -> (s: &'static str)
        ensures
            s@ == "Read"@,
    {
        "Read"
    }
}

impl End for Write {
    type Reverse = Read;

    fn display() -> (s: &'static str)
        ensures
            s@ == "Write"@,
    {
        "Write"
    }
}

/// The drop policy of every descriptor owner in the fabric: an implicit drop
/// closes the held descriptor exactly when it is neither one of the standard
/// streams 0, 1, 2 nor negative (the forgotten sentinel is -1).
pub open spec fn closes_on_drop(fd: int) -> bool {
    fd >= 3
}

/// Once an endpoint is forgotten (its slot holds -1), dropping it closes
/// nothing.
pub proof fn lemma_forgotten_drop_closes_nothing()
    ensures
        !closes_on_drop(-1),
{
}

/// Dropping an owner of a standard stream descriptor (0, 1 or 2) closes
/// nothing.
pub proof fn lemma_std_stream_drop_closes_nothing(fd: int)
    requires
        0 <= fd <= 2,
    ensures
        !closes_on_drop(fd),
{
}

/// Exclusively owns one descriptor for one end of a unidirectional pipe.
///
/// The stored descriptor is either an open file descriptor or the sentinel
/// -1, meaning "forgotten: do not close".
#[derive(Debug)]
pub struct PipeEnd<E: End> {
    raw_fd: i32,
    end: PhantomData<E>,
}

impl<E: End> PipeEnd<E> {
    /// The descriptor slot this endpoint owns.
    pub closed spec fn fd(&self) -> int {
        self.raw_fd as int
    }

    /// Reconstructs an endpoint from a raw descriptor number, taking
    /// ownership of it.
    pub fn from_raw(raw_fd: i32) -> (r: PipeEnd<E>)
        ensures
            r.fd() == raw_fd,
    {
        PipeEnd { raw_fd, end: PhantomData }
    }

    pub fn as_raw_fd(&self) -> (r: i32)
        ensures
            r == self.fd(),
    {
        self.raw_fd
    }

    /// Detach ownership: the endpoint becomes forgotten, so neither a later
    /// `dispose` nor an explicit `close` will close the descriptor.
    pub fn forget(&mut self)
        ensures
            final(self).fd() == -1,
    {
        self.raw_fd = -1;
    }

    /// Take the raw descriptor out, leaving this endpoint forgotten.
    pub fn into_raw_fd(self) -> (r: i32)
        ensures
            r == self.fd(),
    {
        self.raw_fd
    }

    /// Close the underlying descriptor. Idempotent: closing a forgotten
    /// endpoint is a no-op; otherwise the endpoint is left forgotten, so the
    /// descriptor is closed at most once.
    pub fn close(&mut self) -> (r: Result<(), Error>)
        ensures
            old(self).fd() < 0 ==> r is Ok && final(self).fd() == old(self).fd(),
            old(self).fd() >= 0 ==> final(self).fd() == -1,
            r is Err ==> r->Err_0.kind == ErrorKind::SysError,
    {
        if self.raw_fd < 0 {
            return Ok(());
        }
        let res = sys::sys_close(self.raw_fd);
        self.raw_fd = -1;
        match res {
            Ok(()) => Ok(()),
            Err(_) => Err(Error::new(ErrorKind::SysError)),
        }
    }

    /// The drop policy applied explicitly on scope exit: closes the held
    /// descriptor exactly when `closes_on_drop` says so, and reports which
    /// descriptor was closed.
    pub fn dispose(self) -> (r: Option<i32>)
        ensures
            closes_on_drop(self.fd()) ==> (r matches Some(fd) && fd == self.fd()),
            !closes_on_drop(self.fd()) ==> r is None,
    {
        let raw_fd = self.raw_fd;
        if raw_fd >= 3 {
            let _ = sys::sys_close(raw_fd);
            Some(raw_fd)
        } else {
            None
        }
    }

    /// Duplicates the descriptor: closes `target_fd` if open, then duplicates
    /// the current descriptor onto it and returns a new endpoint bound to
    /// `target_fd`.
    pub fn dup(&self, target_fd: i32) -> (r: Result<PipeEnd<E>, Error>)
        ensures
            r matches Ok(e) ==> e.fd() == target_fd,
            r is Err ==> r->Err_0.kind == ErrorKind::SysError,
    {
        match sys::sys_close(target_fd) {
            Ok(()) => (),
            Err(_) => {
                return Err(Error::new(ErrorKind::SysError));
            },
        }
        match sys::sys_dup2(self.raw_fd, target_fd) {
            Ok(new_fd) => Ok(PipeEnd { raw_fd: new_fd, end: PhantomData }),
            Err(_) => Err(Error::new(ErrorKind::SysError)),
        }
    }

    /// The moving form of `dup`: duplicates onto `target_fd` and forgets the
    /// source, so only the copy in `target_fd` remains owned. When the source
    /// already occupies `target_fd`, or is forgotten, nothing is done.
    pub fn replace(self, target_fd: i32) -> (r: Result<(), Error>)
        ensures
            self.fd() == target_fd ==> r is Ok,
            self.fd() == -1 ==> r is Ok,
            r is Err ==> r->Err_0.kind == ErrorKind::SysError,
    {
        let source_fd = self.into_raw_fd();
        if source_fd == target_fd {
            return Ok(());
        }
        if source_fd == -1 {
            return Ok(());
        }
        match sys::sys_close(target_fd) {
            Ok(()) => (),
            Err(_) => {
                return Err(Error::new(ErrorKind::SysError));
            },
        }
        match sys::sys_dup2(source_fd, target_fd) {
            Ok(_) => Ok(()),
            Err(_) => Err(Error::new(ErrorKind::SysError)),
        }
    }
}

impl PipeEnd<Read> {
    /// Reads whatever bytes are ready into the front of `buf`, returning
    /// how many; zero means end of file. Back-pressure surfaces as a
    /// would-block error to the scheduler rather than a hang.
    pub fn read(&self, buf: &mut [u8]) -> (r: Result<usize, Error>)
        ensures
            r matches Ok(n) ==> n <= old(buf)@.len(),
            final(buf)@.len() == old(buf)@.len(),
            r matches Err(e) ==> e.kind == ErrorKind::WouldBlock || e.kind == ErrorKind::SysError,
    {
        match sys::sys_read(self.raw_fd, buf) {
            Ok(n) => Ok(n),
            Err(sys::SysFailure::WouldBlock) => Err(Error::new(ErrorKind::WouldBlock)),
            Err(sys::SysFailure::Other) => Err(Error::new(ErrorKind::SysError)),
        }
    }
}

impl PipeEnd<Write> {
    /// Writes as many of `buf`'s bytes as the pipe accepts, returning how
    /// many. Back-pressure surfaces as a would-block error to the scheduler
    /// rather than a hang.
    pub fn write(&self, buf: &[u8]) -> (r: Result<usize, Error>)
        ensures
            r matches Ok(n) ==> n <= buf@.len(),
            r matches Err(e) ==> e.kind == ErrorKind::WouldBlock || e.kind == ErrorKind::SysError,
    {
        match sys::sys_write(self.raw_fd, buf) {
            Ok(n) => Ok(n),
            Err(sys::SysFailure::WouldBlock) => Err(Error::new(ErrorKind::WouldBlock)),
            Err(sys::SysFailure::Other) => Err(Error::new(ErrorKind::SysError)),
        }
    }
}

/// A unidirectional byte pipe: a (read end, write end) pair created
/// atomically, both ends born non-blocking.
#[derive(Debug)]
pub struct Pipe {
    read: PipeEnd<Read>,
    write: PipeEnd<Write>,
}

impl Pipe {
    pub closed spec fn read_fd(&self) -> int {
        self.read.fd()
    }

    pub closed spec fn write_fd(&self) -> int {
        self.write.fd()
    }

    /// Creates a new pipe whose two ends are distinct open descriptors, both
    /// marked non-blocking. Fails with resource exhaustion when the system
    /// cannot allocate descriptors.
    pub fn new() -> (r: Result<Pipe, Error>)
        ensures
            r matches Ok(p) ==> p.read_fd() >= 0 && p.write_fd() >= 0 && p.read_fd()
                != p.write_fd(),
            r matches Err(e) ==> e.kind == ErrorKind::ResourceExhausted || e.kind
                == ErrorKind::SysError,
    {
        let (read_fd, write_fd) = match sys::sys_pipe() {
            Ok(pair) => pair,
            Err(_) => {
                return Err(Error::new(ErrorKind::ResourceExhausted));
            },
        };
        let mut read: PipeEnd<Read> = PipeEnd::from_raw(read_fd);
        let mut write: PipeEnd<Write> = PipeEnd::from_raw(write_fd);
        match sys::sys_set_nonblocking(read_fd) {
            Ok(()) => (),
            Err(_) => {
                let _ = read.close();
                let _ = write.close();
                return Err(Error::new(ErrorKind::SysError));
            },
        }
        match sys::sys_set_nonblocking(write_fd) {
            Ok(()) => (),
            Err(_) => {
                let _ = read.close();
                let _ = write.close();
                return Err(Error::new(ErrorKind::SysError));
            },
        }
        Ok(Pipe { read, write })
    }

    /// Splits the pipe into its two ends with independent ownership; the pipe
    /// itself ceases to exist.
    pub fn split(self) -> (r: (PipeEnd<Read>, PipeEnd<Write>))
        ensures
            r.0.fd() == self.read_fd(),
            r.1.fd() == self.write_fd(),
    {
        (self.read, self.write)
    }

    /// Keeps only the write end; the read end is dropped under the usual
    /// drop policy.
    pub fn take_writer(self) -> (r: PipeEnd<Write>)
        ensures
            r.fd() == self.write_fd(),
    {
        let (read, write) = self.split();
        let _ = read.dispose();
        write
    }

    /// Keeps only the read end; the write end is dropped under the usual
    /// drop policy.
    pub fn take_reader(self) -> (r: PipeEnd<Read>)
        ensures
            r.fd() == self.read_fd(),
    {
        let (read, write) = self.split();
        let _ = write.dispose();
        read
    }
}

} // verus!
