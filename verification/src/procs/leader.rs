use vstd::prelude::*;

use crate::error::Error;
use crate::fork::{StdIoConf, StdioMode};
use crate::msg::{Message, MessageKind, MessageKindView, Metadata, ToMessageKind};
use crate::procs::supervisor::Status;
use crate::procs::{HasCtlOut, NoCtlIn, Process};

verus! {

/// How many parsed commands may wait between the accepting tasks and the
/// single dispatcher task.
pub const COMMAND_QUEUE_CAPACITY: usize = 3;

/// The filesystem path of the Leader's external control socket.
pub const SOCKET_CTL_PATH: &'static str = "/tmp/vermilion.ctl";

/// Target for a command: either a role name or a numeric process id.
#[derive(Clone, Debug, PartialEq, Eq)]
pub enum Target {
    Name(String),
    Pid(u32),
}

/// The mathematical shape of a `Target`, with the name as a character
/// sequence.
pub enum TargetView {
    Name(Seq<char>),
    Pid(u32),
}

impl View for Target {
    type V = TargetView;

    open spec fn view(&self) -> TargetView {
        match self {
            Target::Name(s) => TargetView::Name(s@),
            Target::Pid(p) => TargetView::Pid(*p),
        }
    }
}

/// Commands the Leader may originate.
#[derive(Clone, Debug, PartialEq, Eq)]
pub enum Command {
    /// Initialize (and start) a process.
    Init(Target),
    /// Start a process; if started, do nothing.
    Start(Target),
    /// Restart a process: stop, then start.
    Restart(Target),
    /// Stop a process; if stopped, do nothing.
    Stop(Target),
    /// Status of a specific process.
    Status(Target),
    /// List all registered processes and their statuses.
    List,
}

/// The mathematical shape of a `Command`.
pub enum CommandView {
    Init(TargetView),
    Start(TargetView),
    Restart(TargetView),
    Stop(TargetView),
    Status(TargetView),
    List,
}

impl View for Command {
    type V = CommandView;

    open spec fn view(&self) -> CommandView {
        match self {
            Command::Init(t) => CommandView::Init(t@),
            Command::Start(t) => CommandView::Start(t@),
            Command::Restart(t) => CommandView::Restart(t@),
            Command::Stop(t) => CommandView::Stop(t@),
            Command::Status(t) => CommandView::Status(t@),
            Command::List => CommandView::List,
        }
    }
}

/// A single result flowing back through a command's response channel.
#[derive(Clone, Debug, PartialEq, Eq)]
pub enum CommandResponse {
    /// One registered process with its supervisor's view of its status.
    ListItem { name: String, id: u32, status: Status },
}

/// The mathematical shape of a `CommandResponse`.
pub enum CommandResponseView {
    ListItem { name: Seq<char>, id: u32, status: Status },
}

impl View for CommandResponse {
    type V = CommandResponseView;

    open spec fn view(&self) -> CommandResponseView {
        match self {
            CommandResponse::ListItem { name, id, status } => CommandResponseView::ListItem {
                name: name@,
                id: *id,
                status: *status,
            },
        }
    }
}

impl ToMessageKind for Command {
    open spec fn spec_ok(&self) -> bool {
        true
    }

    open spec fn spec_kind(&self) -> MessageKindView {
        MessageKindView::Command(self@)
    }

    open spec fn spec_fd(&self) -> Option<i32> {
        None
    }

    fn to_message_kind(self) -> (r: Result<(MessageKind, Option<i32>), Error>)
        ensures
            r is Ok <==> self.spec_ok(),
            r matches Ok((k, fd)) ==> k@ == self.spec_kind() && fd == self.spec_fd() && (
            crate::msg::kind_carries_fd(k@) <==> fd is Some),
    {
        Ok((MessageKind::Command(self), None))
    }
}

impl ToMessageKind for CommandResponse {
    open spec fn spec_ok(&self) -> bool {
        true
    }

    open spec fn spec_kind(&self) -> MessageKindView {
        MessageKindView::CommandResponse(self@)
    }

    open spec fn spec_fd(&self) -> Option<i32> {
        None
    }

    fn to_message_kind(self) -> (r: Result<(MessageKind, Option<i32>), Error>)
        ensures
            r is Ok <==> self.spec_ok(),
            r matches Ok((k, fd)) ==> k@ == self.spec_kind() && fd == self.spec_fd() && (
            crate::msg::kind_carries_fd(k@) <==> fd is Some),
    {
        Ok((MessageKind::CommandResponse(self), None))
    }
}

/// Issue commands to the Launcher.
///
/// Rules:
///   - should be unprivileged
///   - stdin for control
///   - puts messages onto the IPC
#[derive(Debug)]
pub struct Leader;

impl Process<NoCtlIn, HasCtlOut> for Leader {
    open spec fn spec_name() -> Seq<char> {
        "leader"@
    }

    open spec fn spec_stdio() -> StdIoConf {
        StdIoConf {
            stdin: StdioMode::Inherit,
            stdout: StdioMode::Piped,
            stderr: StdioMode::Piped,
        }
    }

    fn name() -> (s: &'static str)
        ensures
            s@ == Self::spec_name(),
    {
        "leader"
    }

    fn get_stdio() -> (r: StdIoConf)
        ensures
            r == Self::spec_stdio(),
    {
        StdIoConf {
            stdin: StdioMode::Inherit,
            stdout: StdioMode::Piped,
            stderr: StdioMode::Piped,
        }
    }
}

/// The dispatcher's envelope for one command bound for the Ipc: a command
/// kind with no descriptor and no referenced process.
pub fn command_message(cmd: Command, my_pid: i32, ipc_pid: Option<i32>) -> (r: Result<
    Message,
    Error,
>)
    ensures
        r is Ok,
        r matches Ok(m) ==> m.wf() && m.data_view().kind == Some(MessageKindView::Command(cmd@))
            && m.fd_view() is None && m.data_view().meta.source_pid == my_pid
            && m.data_view().meta.target_pid == ipc_pid && m.data_view().meta.proc_name is None
            && m.data_view().meta.pid is None,
{
    Message::prepare_message(Metadata::new(None, None, my_pid, ipc_pid), cmd)
}

} // verus!
