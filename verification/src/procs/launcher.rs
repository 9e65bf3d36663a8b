//! The Launcher: spawns a Supervisor for each launch directive and
//! immediately publishes a registration for the new child on its
//! control-out. The SIGCHLD reaping and the spawning itself are operating
//! system work; the decisions are here.

use vstd::prelude::*;

use crate::control::CtlEnd;
use crate::error::Error;
use crate::fork::{StdIoConf, StdioMode};
use crate::msg::{Message, MessageKindView, Metadata};
use crate::pipe::Write;
use crate::procs::leader::{Command, CommandView, Target};
use crate::procs::{HasCtlIn, HasCtlOut, Process};

verus! {

/// Launch programs.
///
/// Rules:
/// - may start processes
/// - only listens to messages from the IPC
/// - reads configuration for the process to launch
#[derive(Debug)]
pub struct Launcher;

impl Process<HasCtlIn, HasCtlOut> for Launcher {
    open spec fn spec_name() -> Seq<char> {
        "launcher"@
    }

    open spec fn spec_stdio() -> StdIoConf {
        StdIoConf {
            stdin: StdioMode::Inherit,
            stdout: StdioMode::Piped,
            stderr: StdioMode::Piped,
        }
    }

    fn name() -> (s: &'static str)
        ensures
            s@ == Self::spec_name(),
    {
        "launcher"
    }

    fn get_stdio() -> (r: StdIoConf)
        ensures
            r == Self::spec_stdio(),
    {
        StdIoConf {
            stdin: StdioMode::Inherit,
            stdout: StdioMode::Piped,
            stderr: StdioMode::Piped,
        }
    }
}

/// Which directives make the Launcher spawn a new Supervisor: Init and
/// Start, each naming the target; every other command is not a launch
/// directive.
pub fn launch_target(c: &Command) -> (r: Option<&Target>)
    ensures
        r is Some <==> (c@ is Init || c@ is Start),
        c@ matches CommandView::Init(t) ==> (r matches Some(rt) && rt@ == t),
        c@ matches CommandView::Start(t) ==> (r matches Some(rt) && rt@ == t),
    {
    match c {
        Command::Init(t) => Some(t),
        Command::Start(t) => Some(t),
        _ => None,
    }
}

/// The registration published on control-out right after a Supervisor is
/// spawned: it names the new child and attaches a write-control-end leading
/// to that Supervisor, so the Ipc can reach it.
pub fn registration_message(
    name: String,
    supervisor_pid: i32,
    my_pid: i32,
    ipc_pid: i32,
    supervisor_ctl: CtlEnd<Write>,
) -> (r: Result<Message, Error>)
    ensures
        r is Ok,
        r matches Ok(m) ==> m.wf() && m.data_view().kind == Some(MessageKindView::WriteCtlEnd)
            && m.fd_view() == Some((supervisor_ctl.fd() as i32)) && m.data_view().meta.proc_name
            == Some(name@) && m.data_view().meta.pid == Some(supervisor_pid)
            && m.data_view().meta.source_pid == my_pid && m.data_view().meta.target_pid == Some(
            ipc_pid,
        ),
{
    let meta = Metadata::new(Some(name), Some(supervisor_pid), my_pid, Some(ipc_pid));
    Message::prepare_message(meta, supervisor_ctl)
}

} // verus!
