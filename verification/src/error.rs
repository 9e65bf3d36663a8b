use vstd::prelude::*;

verus! {

/// The failure classes of the fabric, at the domain level.
#[derive(Clone, Copy, Debug, PartialEq, Eq, Structural)]
pub enum ErrorKind {
    /// Descriptor or socket allocation failed.
    ResourceExhausted,
    /// The operating system rejected a fork or exec.
    SpawnError,
    /// Wrong role name, direction, or order during registration.
    HandshakeError,
    /// A descriptor was attached when none was expected (or vice versa),
    /// or an envelope failed to decode.
    ProtocolError,
    /// An envelope could not be encoded.
    SerializationError,
    /// A message's kind and its attached descriptor disagree on the sending side.
    InvalidKind,
    /// Graceful end-of-stream on a control or pipe endpoint.
    PeerClosed,
    /// Retryable back-pressure; surfaced only to the scheduler.
    WouldBlock,
    /// A root role exited.
    UnexpectedExit,
    /// Any other error reported by the operating system.
    SysError,
}

/// An error of the fabric: a domain-level kind plus an optional detail,
/// usually the name of the offending role or process.
#[derive(Debug)]
pub struct Error {
    pub kind: ErrorKind,
    pub detail: Option<String>,
}

impl Error {
    pub fn new(kind: ErrorKind) -> (r: Error)
        ensures
            r.kind == kind,
            r.detail is None,
    {
        Error { kind, detail: None }
    }

    pub fn with_detail(kind: ErrorKind, detail: String) -> (r: Error)
        ensures
            r.kind == kind,
            r.detail == Some(detail),
    {
        Error { kind, detail: Some(detail) }
    }
}

} // verus!
