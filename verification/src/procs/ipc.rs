//! The Ipc role: during initialization it learns, in a fixed order, the
//! identities and control ends of the Logger, the Leader and the Launcher;
//! in steady state it pairs each Leader command with the response channel
//! that follows it, keeps the table of supervised children, and routes or
//! fans commands out to their supervisors.

use vstd::prelude::*;
use vstd::string::StringExecFns;

use crate::control::CtlEnd;
use crate::error::{Error, ErrorKind};
use crate::fork::{StdIoConf, StdioMode};
use crate::msg::{Message, MessageDataView, MessageKindView, Metadata};
use crate::pipe::{Read, Write};
use crate::procs::leader::{
    Command, CommandResponse, CommandResponseView, CommandView, Target, TargetView,
};
use crate::procs::supervisor::Status;
use crate::procs::{HasCtlIn, HasCtlOut, Process};

verus! {

/// Inter-process-communication service.
///
/// Recv messages from the Leader and pass to supervisors.
///
/// Rules:
///  - may only receive commands from the leader.
///  - may only deliver messages to the supervisors and launcher
///    - must validate messages from the leader
///    - never delivers messages to the leader except results through the
///      response channel the leader supplied
#[derive(Debug)]
pub struct Ipc;

impl Process<HasCtlIn, HasCtlOut> for Ipc {
    open spec fn spec_name() -> Seq<char> {
        "ipc"@
    }

    open spec fn spec_stdio() -> StdIoConf {
        StdIoConf { stdin: StdioMode::Piped, stdout: StdioMode::Piped, stderr: StdioMode::Piped }
    }

    fn name() -> (s: &'static str)
        ensures
            s@ == Self::spec_name(),
    {
        "ipc"
    }

    fn get_stdio() -> (r: StdIoConf)
        ensures
            r == Self::spec_stdio(),
    {
        StdIoConf { stdin: StdioMode::Piped, stdout: StdioMode::Piped, stderr: StdioMode::Piped }
    }
}

/// Ensure the sender of a message is the expected peer for the channel it
/// arrived on; a mismatch discards the message.
pub fn verify_pid(meta: &Metadata, expected_pid: i32) -> (r: bool)
    ensures
        r == (meta@.source_pid == expected_pid),
{
    meta.source_pid() == expected_pid
}

/// The fixed order of the initialization handshake: the registration each
/// stage expects.
pub open spec fn expected_role(stage: int) -> Seq<char> {
    if stage == 0 {
        "logger"@
    } else if stage == 1 {
        "leader"@
    } else {
        "launcher"@
    }
}

/// The direction each stage expects: the Leader hands over a read end (the
/// Ipc will read its commands), the Logger and the Launcher hand over write
/// ends (the Ipc will write to them).
pub open spec fn expected_kind(stage: int) -> MessageKindView {
    if stage == 1 {
        MessageKindView::ReadCtlEnd
    } else {
        MessageKindView::WriteCtlEnd
    }
}

/// Whether one registration message is acceptable at the given stage: the
/// right role name, a process id, and an endpoint of the right direction.
pub open spec fn handshake_accepts(stage: int, data: MessageDataView, fd: Option<i32>) -> bool {
    &&& data.meta.proc_name == Some(expected_role(stage))
    &&& data.meta.pid is Some
    &&& data.kind == Some(expected_kind(stage))
    &&& fd is Some
}

/// Refuses one registration message: the message is discarded (closing any
/// attached descriptor) and the error names the process that was wrong.
fn handshake_failure(msg: Message) -> (r: Error)
    ensures
        r.kind == ErrorKind::HandshakeError,
        crate::codec::opt_string_view(r.detail) == msg.data_view().meta.proc_name,
{
    let detail = match &msg.data.meta.proc_name {
        Some(d) => Some(d.clone()),
        None => None,
    };
    let _ = msg.dispose();
    match detail {
        Some(d) => Error::with_detail(ErrorKind::HandshakeError, d),
        None => Error::new(ErrorKind::HandshakeError),
    }
}

/// The three registrations the Ipc reads, in order, before steady state.
pub struct Handshake {
    pub logger: Option<(i32, CtlEnd<Write>)>,
    pub leader: Option<(i32, CtlEnd<Read>)>,
    pub launcher: Option<(i32, CtlEnd<Write>)>,
}

/// Everything the Ipc retains from a completed handshake.
pub struct IpcPeers {
    pub logger_pid: i32,
    pub logger_ctl: CtlEnd<Write>,
    pub leader_pid: i32,
    pub leader_ctl: CtlEnd<Read>,
    pub launcher_pid: i32,
    pub launcher_ctl: CtlEnd<Write>,
}

impl Handshake {
    /// How many registrations have been taken so far.
    pub open spec fn stage(&self) -> int {
        if self.logger is None {
            0
        } else if self.leader is None {
            1
        } else if self.launcher is None {
            2
        } else {
            3
        }
    }

    /// Registrations arrive in order: a later one is never present without
    /// the earlier ones.
    pub open spec fn wf(&self) -> bool {
        &&& self.leader is Some ==> self.logger is Some
        &&& self.launcher is Some ==> self.leader is Some
    }

    pub fn new() -> (r: Handshake)
        ensures
            r.stage() == 0,
            r.wf(),
    {
        Handshake { logger: None, leader: None, launcher: None }
    }

    /// Whether all three registrations are in.
    pub fn is_complete(&self) -> (b: bool)
        ensures
            b == (self.stage() == 3),
    {
        self.logger.is_some() && self.leader.is_some() && self.launcher.is_some()
    }

    /// Consumes one registration message. A message carrying the expected
    /// role name, a process id and an endpoint of the expected direction
    /// advances the handshake; anything else fails it at once, before any
    /// later message is consumed, with an error naming the process that was
    /// wrong.
    pub fn step(&mut self, msg: Message) -> (r: Result<(), Error>)
        requires
            old(self).stage() < 3,
            old(self).wf(),
        ensures
            final(self).wf(),
            r is Ok <==> handshake_accepts(old(self).stage(), msg.data_view(), msg.fd_view()),
            r is Ok ==> final(self).stage() == old(self).stage() + 1,
            r is Err ==> *final(self) == *old(self),
            r matches Err(e) ==> e.kind == ErrorKind::HandshakeError
                && crate::codec::opt_string_view(e.detail) == msg.data_view().meta.proc_name,
            old(self).stage() == 0 && r is Ok ==> (final(self).logger matches Some((p, e)) && Some(
                p,
            ) == msg.data_view().meta.pid && Some((e.fd() as i32)) == msg.fd_view()),
            old(self).stage() == 1 && r is Ok ==> (final(self).leader matches Some((p, e)) && Some(
                p,
            ) == msg.data_view().meta.pid && Some((e.fd() as i32)) == msg.fd_view()),
            old(self).stage() == 2 && r is Ok ==> (final(self).launcher matches Some((p, e))
                && Some(p) == msg.data_view().meta.pid && Some((e.fd() as i32)) == msg.fd_view()),
    {
        let mut msg = msg;
        let stage: usize = if self.logger.is_none() {
            0
        } else if self.leader.is_none() {
            1
        } else {
            2
        };
        let expected = if stage == 0 {
            String::from_str("logger")
        } else if stage == 1 {
            String::from_str("leader")
        } else {
            String::from_str("launcher")
        };
        let name_ok = match &msg.data.meta.proc_name {
            Some(n) => n.eq(&expected),
            None => false,
        };
        if !name_ok {
            return Err(handshake_failure(msg));
        }
        let pid = match msg.data.meta.pid {
            Some(p) => p,
            None => {
                return Err(handshake_failure(msg));
            },
        };
        if stage == 0 {
            match msg.take_write_ctl_end() {
                Some(end) => {
                    self.logger = Some((pid, end));
                    Ok(())
                },
                None => Err(handshake_failure(msg)),
            }
        } else if stage == 1 {
            match msg.take_read_ctl_end() {
                Some(end) => {
                    self.leader = Some((pid, end));
                    Ok(())
                },
                None => Err(handshake_failure(msg)),
            }
        } else {
            match msg.take_write_ctl_end() {
                Some(end) => {
                    self.launcher = Some((pid, end));
                    Ok(())
                },
                None => Err(handshake_failure(msg)),
            }
        }
    }

    /// Hands out the three retained peers once all registrations are in.
    pub fn into_peers(self) -> (r: IpcPeers)
        requires
            self.stage() == 3,
        ensures
            Some((r.logger_pid, r.logger_ctl)) == self.logger,
            Some((r.leader_pid, r.leader_ctl)) == self.leader,
            Some((r.launcher_pid, r.launcher_ctl)) == self.launcher,
    {
        let Handshake { logger, leader, launcher } = self;
        match (logger, leader, launcher) {
            (Some((logger_pid, logger_ctl)), Some((leader_pid, leader_ctl)), Some(
                (launcher_pid, launcher_ctl),
            )) => IpcPeers {
                logger_pid,
                logger_ctl,
                leader_pid,
                leader_ctl,
                launcher_pid,
                launcher_ctl,
            },
            _ => vstd::pervasive::unreached(),
        }
    }
}

/// One supervised child as the Ipc sees it: the process id, the logical
/// name, the last status reported for it, and the write-control end leading
/// to its Supervisor.
#[derive(Debug)]
pub struct Supervised {
    pub id: i32,
    pub name: String,
    pub status: Status,
    pub supervisor_ctl: CtlEnd<Write>,
}

/// The mathematical shape of one table entry.
pub struct SupervisedView {
    pub id: i32,
    pub name: Seq<char>,
    pub status: Status,
    pub ctl_fd: int,
}

impl View for Supervised {
    type V = SupervisedView;

    open spec fn view(&self) -> SupervisedView {
        SupervisedView {
            id: self.id,
            name: self.name@,
            status: self.status,
            ctl_fd: self.supervisor_ctl.fd(),
        }
    }
}

/// No two entries claim the same process id.
pub open spec fn ids_unique(s: Seq<SupervisedView>) -> bool {
    forall|i: int, j: int| 0 <= i < j < s.len() ==> #[trigger] s[i].id != #[trigger] s[j].id
}

/// The role descriptor table: process id to supervisor write-control end
/// and logical name, with lookup by name as the secondary direction. A pair
/// is inserted on registration and removed on supervised-process exit.
pub struct SupervisedTable {
    entries: Vec<Supervised>,
}

impl View for SupervisedTable {
    type V = Seq<SupervisedView>;

    closed spec fn view(&self) -> Seq<SupervisedView> {
        self.entries@.map_values(|e: Supervised| e@)
    }
}

impl SupervisedTable {
    pub fn new() -> (r: SupervisedTable)
        ensures
            r@ =~= Seq::<SupervisedView>::empty(),
    {
        SupervisedTable { entries: Vec::new() }
    }

    pub fn len(&self) -> (r: usize)
        ensures
            r == self@.len(),
    {
        self.entries.len()
    }

    fn find_index(&self, id: i32) -> (r: Option<usize>)
        ensures
            r matches Some(i) ==> i < self@.len() && self@[i as int].id == id,
            r is None ==> forall|i: int| 0 <= i < self@.len() ==> #[trigger] self@[i].id != id,
    {
        let n = self.entries.len();
        let mut i: usize = 0;
        while i < n
            invariant
                0 <= i <= n,
                n == self@.len(),
                forall|j: int| 0 <= j < i ==> #[trigger] self@[j].id != id,
            decreases n - i,
        {
            if self.entries[i].id == id {
                return Some(i);
            }
            i = i + 1;
        }
        None
    }

    /// Whether some entry claims this process id.
    pub fn contains_pid(&self, id: i32) -> (r: bool)
        ensures
            r == exists|i: int| 0 <= i < self@.len() && #[trigger] self@[i].id == id,
    {
        match self.find_index(id) {
            Some(_) => true,
            None => false,
        }
    }

    /// Registers a child. An entry already claiming the same process id is
    /// replaced: its control end is dropped under the usual policy and the
    /// new entry takes its place at the end of the table.
    pub fn register(&mut self, s: Supervised) -> (replaced: bool)
        requires
            ids_unique(old(self)@),
        ensures
            ids_unique(final(self)@),
            !replaced ==> final(self)@ =~= old(self)@ + seq![s@],
            replaced ==> exists|i: int|
                0 <= i < old(self)@.len() && old(self)@[i].id == s@.id && final(self)@ =~= old(
                    self,
                )@.remove(i) + seq![s@],
    {
        match self.find_index(s.id) {
            Some(i) => {
                let ghost gi = i as int;
                let removed = self.entries.remove(i);
                let _ = removed.supervisor_ctl.dispose();
                self.entries.push(s);
                proof {
                    assert(final(self)@ =~= old(self)@.remove(gi) + seq![s@]);
                    assert forall|a: int, b: int|
                        0 <= a < b < final(self)@.len() implies #[trigger] final(self)@[a].id
                        != #[trigger] final(self)@[b].id by {
                        assert(ids_unique(old(self)@));
                    }
                }
                true
            },
            None => {
                self.entries.push(s);
                proof {
                    assert(final(self)@ =~= old(self)@ + seq![s@]);
                }
                false
            },
        }
    }

    /// Removes the entry for an exited child, handing it back; without such
    /// an entry the table is unchanged.
    pub fn remove(&mut self, id: i32) -> (r: Option<Supervised>)
        ensures
            r matches Some(s) ==> s@.id == id && exists|i: int|
                0 <= i < old(self)@.len() && old(self)@[i] == s@ && final(self)@ =~= old(
                    self,
                )@.remove(i),
            r is None ==> *final(self) == *old(self) && forall|i: int|
                0 <= i < old(self)@.len() ==> #[trigger] old(self)@[i].id != id,
    {
        match self.find_index(id) {
            Some(i) => {
                let ghost gi = i as int;
                let removed = self.entries.remove(i);
                proof {
                    assert(old(self)@[gi] == removed@);
                    assert(final(self)@ =~= old(self)@.remove(gi));
                }
                Some(removed)
            },
            None => None,
        }
    }

    /// The secondary direction: a process id for a logical name, when some
    /// entry carries that name.
    pub fn lookup_name(&self, name: &String) -> (r: Option<i32>)
        ensures
            r is Some <==> exists|i: int| 0 <= i < self@.len() && #[trigger] self@[i].name
                == name@,
            r matches Some(p) ==> exists|i: int|
                0 <= i < self@.len() && #[trigger] self@[i].name == name@ && self@[i].id == p,
    {
        let n = self.entries.len();
        let mut i: usize = 0;
        while i < n
            invariant
                0 <= i <= n,
                n == self@.len(),
                forall|j: int| 0 <= j < i ==> #[trigger] self@[j].name != name@,
            decreases n - i,
        {
            if self.entries[i].name.eq(name) {
                proof {
                    assert(self@[i as int].name == name@);
                }
                return Some(self.entries[i].id);
            }
            proof {
                assert(self@[i as int].name != name@);
            }
            i = i + 1;
        }
        None
    }

    /// The List fan-in as the Ipc reports it: one item per supervised
    /// child, in table order, carrying the name, the id and the last known
    /// status.
    pub fn list_responses(&self) -> (r: Vec<CommandResponse>)
        ensures
            r@.len() == self@.len(),
            forall|i: int|
                0 <= i < r@.len() ==> (#[trigger] r@[i]@ matches CommandResponseView::ListItem {
                    name,
                    id,
                    status,
                } && name == self@[i].name && id == self@[i].id as u32 && status
                    == self@[i].status),
    {
        let n = self.entries.len();
        let mut out: Vec<CommandResponse> = Vec::new();
        let mut i: usize = 0;
        while i < n
            invariant
                0 <= i <= n,
                n == self@.len(),
                out@.len() == i,
                forall|j: int|
                    0 <= j < i ==> (#[trigger] out@[j]@ matches CommandResponseView::ListItem {
                        name,
                        id,
                        status,
                    } && name == self@[j].name && id == self@[j].id as u32 && status
                        == self@[j].status),
            decreases n - i,
        {
            let e = &self.entries[i];
            let item = CommandResponse::ListItem {
                name: e.name.clone(),
                id: #[verifier::truncate] (e.id as u32),
                status: e.status,
            };
            out.push(item);
            i = i + 1;
        }
        out
    }
}

/// One ongoing registration from the Launcher in steady state: a message
/// naming a newly supervised child and attaching the write-control end
/// leading to its Supervisor. A valid registration becomes a table entry in
/// the Starting status; anything else is a protocol error and the message
/// is discarded.
pub fn registration_entry(msg: Message) -> (r: Result<Supervised, Error>)
    ensures
        r is Ok <==> (msg.data_view().meta.proc_name is Some && msg.data_view().meta.pid is Some
            && msg.data_view().kind == Some(MessageKindView::WriteCtlEnd) && msg.fd_view()
            is Some),
        r matches Ok(s) ==> Some(s@.name) == msg.data_view().meta.proc_name && Some(s@.id)
            == msg.data_view().meta.pid && Some((s@.ctl_fd as i32)) == msg.fd_view() && s@.status
            == Status::Starting,
        r matches Err(e) ==> e.kind == ErrorKind::ProtocolError,
{
    let mut msg = msg;
    let name = match &msg.data.meta.proc_name {
        Some(n) => n.clone(),
        None => {
            let _ = msg.dispose();
            return Err(Error::new(ErrorKind::ProtocolError));
        },
    };
    let pid = match msg.data.meta.pid {
        Some(p) => p,
        None => {
            let _ = msg.dispose();
            return Err(Error::new(ErrorKind::ProtocolError));
        },
    };
    match msg.take_write_ctl_end() {
        Some(ctl) => Ok(
            Supervised { id: pid, name, status: Status::Starting, supervisor_ctl: ctl },
        ),
        None => {
            let _ = msg.dispose();
            Err(Error::new(ErrorKind::ProtocolError))
        },
    }
}

/// What the Ipc does with one complete command.
#[derive(Clone, Copy, Debug, PartialEq, Eq, Structural)]
pub enum RouteDecision {
    /// Query every supervised child and stream the items back.
    FanOutList,
    /// Forward to the supervisor of the child with this process id.
    Deliver(i32),
    /// The addressed child is not in the table.
    UnknownTarget,
}

/// Routes one command: List fans out; a targeted command goes to the
/// addressed child, found by process id or by name lookup.
pub fn route_command(table: &SupervisedTable, cmd: &Command) -> (r: RouteDecision)
    ensures
        cmd@ is List ==> r == RouteDecision::FanOutList,
        (match cmd@ {
            CommandView::Init(t) => Some(t),
            CommandView::Start(t) => Some(t),
            CommandView::Restart(t) => Some(t),
            CommandView::Stop(t) => Some(t),
            CommandView::Status(t) => Some(t),
            CommandView::List => None,
        }) matches Some(t) ==> match t {
            TargetView::Pid(p) => if exists|i: int|
                0 <= i < table@.len() && #[trigger] table@[i].id == p as i32 {
                r == RouteDecision::Deliver(p as i32)
            } else {
                r == RouteDecision::UnknownTarget
            },
            TargetView::Name(nm) => {
                &&& r matches RouteDecision::Deliver(p) ==> exists|i: int|
                    0 <= i < table@.len() && #[trigger] table@[i].name == nm && table@[i].id == p
                &&& r is UnknownTarget <==> !exists|i: int|
                    0 <= i < table@.len() && #[trigger] table@[i].name == nm
                &&& !(r is FanOutList)
            },
        },
{
    let target = match cmd {
        Command::Init(t) => t,
        Command::Start(t) => t,
        Command::Restart(t) => t,
        Command::Stop(t) => t,
        Command::Status(t) => t,
        Command::List => {
            return RouteDecision::FanOutList;
        },
    };
    match target {
        Target::Pid(p) => {
            let id = #[verifier::truncate] (*p as i32);
            if table.contains_pid(id) {
                RouteDecision::Deliver(id)
            } else {
                RouteDecision::UnknownTarget
            }
        },
        Target::Name(nm) => {
            match table.lookup_name(nm) {
                Some(p) => RouteDecision::Deliver(p),
                None => RouteDecision::UnknownTarget,
            }
        },
    }
}

/// The observable outcome of feeding one Leader message to the inbox.
pub enum InboxOutcome {
    /// A command was accepted and is now held, awaiting its channel.
    Held,
    /// The held command and its response channel are handed out together.
    Complete(CommandView, int),
    /// The message did not fit the pairing; nothing is handed out.
    Refused(ErrorKind),
}

/// What holds after the inbox consumes one message. With nothing held, only
/// a command is acceptable and becomes the held command; with a command
/// held, only a write-control end is acceptable and completes the pair.
/// Everything else is refused as a protocol error and the held command, if
/// any, is dropped.
pub open spec fn inbox_accept_post(
    pre: Option<CommandView>,
    post: Option<CommandView>,
    kind: Option<MessageKindView>,
    fd: Option<i32>,
    outcome: InboxOutcome,
) -> bool {
    match pre {
        None => match kind {
            Some(MessageKindView::Command(c)) => outcome == InboxOutcome::Held && post == Some(c),
            _ => outcome == InboxOutcome::Refused(ErrorKind::ProtocolError) && post is None,
        },
        Some(c) => if kind == Some(MessageKindView::WriteCtlEnd) && fd is Some {
            &&& outcome matches InboxOutcome::Complete(oc, ofd) && oc == c && Some((ofd as i32))
                == fd
            &&& post is None
        } else {
            outcome == InboxOutcome::Refused(ErrorKind::ProtocolError) && post is None
        },
    }
}

/// The Leader's command / response-channel pairing: the command arrives
/// first, then a message carrying the write-control end the results flow
/// back through; the Ipc acts only once both are in.
pub struct LeaderInbox {
    pending: Option<Command>,
}

impl LeaderInbox {
    /// The command waiting for its response channel, if any.
    pub closed spec fn pending_view(&self) -> Option<CommandView> {
        match self.pending {
            Some(ref c) => Some(c@),
            None => None,
        }
    }

    pub fn new() -> (r: LeaderInbox)
        ensures
            r.pending_view() is None,
    {
        LeaderInbox { pending: None }
    }

    /// Consumes one message from the Leader's channel. The first of a pair
    /// must carry a command, which is held; the second must carry the
    /// response channel, upon which the held command and the channel are
    /// handed out together. Anything else is a protocol error: the message
    /// is discarded and any held command is dropped.
    pub fn accept(&mut self, msg: Message) -> (r: Result<Option<(Command, CtlEnd<Write>)>, Error>)
        ensures
            inbox_accept_post(
                old(self).pending_view(),
                final(self).pending_view(),
                msg.data_view().kind,
                msg.fd_view(),
                match r {
                    Ok(None) => InboxOutcome::Held,
                    Ok(Some((ref c, ref end))) => InboxOutcome::Complete(c@, end.fd()),
                    Err(ref e) => InboxOutcome::Refused(e.kind),
                },
            ),
    {
        let mut msg = msg;
        if self.pending.is_none() {
            match msg.take_command() {
                Some(c) => {
                    self.pending = Some(c);
                    let _ = msg.dispose();
                    Ok(None)
                },
                None => {
                    let _ = msg.dispose();
                    Err(Error::new(ErrorKind::ProtocolError))
                },
            }
        } else {
            match msg.take_write_ctl_end() {
                Some(end) => {
                    let c = match self.pending.take() {
                        Some(c) => c,
                        None => vstd::pervasive::unreached(),
                    };
                    let _ = msg.dispose();
                    Ok(Some((c, end)))
                },
                None => {
                    self.pending = None;
                    let _ = msg.dispose();
                    Err(Error::new(ErrorKind::ProtocolError))
                },
            }
        }
    }
}

} // verus!
