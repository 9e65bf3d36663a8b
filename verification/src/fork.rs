//! The spawn layer's decisions: which subcommand a child re-enters, how its
//! standard streams are configured, which control pairs are pre-allocated,
//! and which half of each pair the child inherits.

use vstd::prelude::*;

use crate::control::{Control, CtlEnd};
use crate::pipe::{Read, Write};
use crate::procs::{CtlIn, CtlOut, Process};

verus! {

/// Descriptor slot of a child's standard input.
pub const STDIN: i32 = 0;

/// Descriptor slot of a child's standard output.
pub const STDOUT: i32 = 1;

/// Descriptor slot of a child's standard error.
pub const STDERR: i32 = 2;

/// How one standard stream of a child is set up.
#[derive(Clone, Copy, Debug, PartialEq, Eq, Structural)]
pub enum StdioMode {
    /// The child shares the parent's stream.
    Inherit,
    /// The child gets a fresh pipe whose other end the parent captures.
    Piped,
    /// The child's stream reads as empty or discards what is written.
    Null,
}

/// The standard-stream configuration of a role.
#[derive(Clone, Copy, Debug, PartialEq, Eq, Structural)]
pub struct StdIoConf {
    pub stdin: StdioMode,
    pub stdout: StdioMode,
    pub stderr: StdioMode,
}

/// Everything the launching side must know to start a role's child process:
/// the subcommand to re-enter, the stream configuration to apply, and which
/// control channels to pre-allocate.
pub struct SpawnPlan {
    pub subcommand: &'static str,
    pub stdio: StdIoConf,
    pub control_in: bool,
    pub control_out: bool,
}

/// The plan for one role, drawn from its declared contract.
pub fn spawn_plan<P: Process<I, O>, I: CtlIn, O: CtlOut>() -> (r: SpawnPlan)
    ensures
        r.subcommand@ == P::spec_name(),
        r.stdio == P::spec_stdio(),
        r.control_in == I::spec_has_control_in(),
        r.control_out == O::spec_has_control_out(),
{
    SpawnPlan {
        subcommand: P::name(),
        stdio: P::get_stdio(),
        control_in: P::has_control_in(),
        control_out: P::has_control_out(),
    }
}

/// For an inbound control channel, the child is the reader: it inherits the
/// read end, whose raw number goes on the argv and whose duplicate the
/// parent closes after the launch; the parent keeps the write end as the
/// child handle's `control_in`.
pub fn control_in_halves(c: Control) -> (r: (CtlEnd<Read>, CtlEnd<Write>))
    ensures
        r.0.fd() == c.read_fd(),
        r.1.fd() == c.write_fd(),
{
    c.split()
}

/// For an outbound control channel, the child is the writer: it inherits
/// the write end, whose raw number goes on the argv and whose duplicate the
/// parent closes after the launch; the parent keeps the read end as the
/// child handle's `control_out`.
pub fn control_out_halves(c: Control) -> (r: (CtlEnd<Write>, CtlEnd<Read>))
    ensures
        r.0.fd() == c.write_fd(),
        r.1.fd() == c.read_fd(),
{
    let (read, write) = c.split();
    (write, read)
}

} // verus!
