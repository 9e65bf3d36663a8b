use vstd::prelude::*;

verus! {

/// Relies on nix::unistd::close: closes the given descriptor; on failure the
/// errno is handed back. Nothing further is claimed of the outcome.
#[verifier::external_body]
pub(crate) fn sys_close(fd: i32) -> (r: Result<(), i32>) {
    nix::unistd::close(fd).map_err(|e| e as i32)
}

/// Relies on nix::unistd::dup2: on success the returned descriptor equals
/// `newfd`, which now refers to the same open file as `oldfd`.
#[verifier::external_body]
pub(crate) fn sys_dup2(oldfd: i32, newfd: i32) -> (r: Result<i32, i32>)
    ensures
        r is Ok ==> r->Ok_0 == newfd,
{
    nix::unistd::dup2(oldfd, newfd).map_err(|e| e as i32)
}

/// Relies on nix::unistd::pipe: on success the pair holds two distinct open
/// descriptors, the read end first and the write end second.
#[verifier::external_body]
pub(crate) fn sys_pipe() -> (r: Result<(i32, i32), i32>)
    ensures
        r is Ok ==> r->Ok_0.0 >= 0 && r->Ok_0.1 >= 0 && r->Ok_0.0 != r->Ok_0.1,
{
    nix::unistd::pipe().map_err(|e| e as i32)
}

/// Relies on nix::sys::socket::socketpair, asked for a connected Unix-domain
/// datagram pair: on success the pair holds two distinct open descriptors.
#[verifier::external_body]
pub(crate) fn sys_socketpair() -> (r: Result<(i32, i32), i32>)
    ensures
        r is Ok ==> r->Ok_0.0 >= 0 && r->Ok_0.1 >= 0 && r->Ok_0.0 != r->Ok_0.1,
{
    nix::sys::socket::socketpair(
        nix::sys::socket::AddressFamily::Unix,
        nix::sys::socket::SockType::Datagram,
        None,
        nix::sys::socket::SockFlag::empty(),
    )
    .map_err(|e| e as i32)
}

/// Relies on nix::fcntl::fcntl with F_SETFL(O_NONBLOCK): marks the descriptor
/// non-blocking. Nothing further is claimed of the outcome.
#[verifier::external_body]
pub(crate) fn sys_set_nonblocking(fd: i32) -> (r: Result<(), i32>) {
    nix::fcntl::fcntl(fd, nix::fcntl::FcntlArg::F_SETFL(nix::fcntl::OFlag::O_NONBLOCK))
        .map(|_| ())
        .map_err(|e| e as i32)
}

/// Relies on nix::unistd::getpid, which always succeeds; the value depends on
/// the calling process, so nothing is claimed of it.
#[verifier::external_body]
pub(crate) fn sys_getpid() -> (r: i32) {
    nix::unistd::getpid().as_raw()
}

/// How a channel operation failed, as the operating system reported it:
/// retryable back-pressure, or anything else.
pub(crate) enum SysFailure {
    WouldBlock,
    Other,
}

/// Relies on nix::unistd::read: reads at most `buf.len()` bytes into the
/// front of `buf` and returns how many; zero means end of file. What was
/// read depends on the peer, so nothing is claimed of the contents.
#[verifier::external_body]
pub(crate) fn sys_read(fd: i32, buf: &mut [u8]) -> (r: Result<usize, SysFailure>)
    ensures
        r matches Ok(n) ==> n <= old(buf)@.len(),
        final(buf)@.len() == old(buf)@.len(),
{
    nix::unistd::read(fd, buf).map_err(
        |e| if e == nix::errno::Errno::EWOULDBLOCK {
            SysFailure::WouldBlock
        } else {
            SysFailure::Other
        },
    )
}

/// Relies on nix::unistd::write: writes at most `buf.len()` bytes from
/// `buf` and returns how many were accepted.
#[verifier::external_body]
pub(crate) fn sys_write(fd: i32, buf: &[u8]) -> (r: Result<usize, SysFailure>)
    ensures
        r matches Ok(n) ==> n <= buf@.len(),
{
    nix::unistd::write(fd, buf).map_err(
        |e| if e == nix::errno::Errno::EWOULDBLOCK {
            SysFailure::WouldBlock
        } else {
            SysFailure::Other
        },
    )
}

} // verus!
