//! The init sequencer's decisions: the fixed order the root roles are
//! spawned in, the messages that hand a child's captured output to the
//! Logger, the three-message handshake that wires the Ipc, and the
//! diagnostic when a root role dies and the tree is torn down.

use vstd::prelude::*;
use vstd::string::StringExecFns;

use crate::control::CtlEnd;
use crate::error::{Error, ErrorKind};
use crate::msg::{Message, MessageKindView, Metadata};
use crate::pipe::{PipeEnd, Read, Write};
use crate::procs::ipc::handshake_accepts;
use crate::procs::{spec_role_display, Role};

verus! {

/// The fixed order in which Init starts the root roles: the Logger first,
/// so every later role's output can be handed to it as read-pipe-ends; the
/// Ipc last, once every peer it must learn about exists.
pub fn root_spawn_order() -> (r: Vec<Role>)
    ensures
        r@ =~= seq![Role::Logger, Role::Leader, Role::Launcher, Role::Ipc],
{
    let mut v: Vec<Role> = Vec::new();
    v.push(Role::Logger);
    v.push(Role::Leader);
    v.push(Role::Launcher);
    v.push(Role::Ipc);
    proof {
        assert(v@ =~= seq![Role::Logger, Role::Leader, Role::Launcher, Role::Ipc]);
    }
    v
}

/// The message that hands one captured output stream of a child to the
/// Logger: a read-pipe-end under the child's role name and process id.
pub fn output_message(
    proc_name: String,
    child_pid: i32,
    my_pid: i32,
    logger_pid: i32,
    out: PipeEnd<Read>,
) -> (r: Result<Message, Error>)
    ensures
        r is Ok,
        r matches Ok(m) ==> m.wf() && m.data_view().kind == Some(MessageKindView::ReadPipeEnd)
            && m.fd_view() == Some((out.fd() as i32)) && m.data_view().meta.proc_name == Some(
            proc_name@,
        ) && m.data_view().meta.pid == Some(child_pid) && m.data_view().meta.source_pid == my_pid
            && m.data_view().meta.target_pid == Some(logger_pid),
{
    let meta = Metadata::new(Some(proc_name), Some(child_pid), my_pid, Some(logger_pid));
    Message::prepare_message(meta, out)
}

/// The three registrations Init sends into the Ipc's control-in, in the
/// order the Ipc's handshake expects: the Logger's write end, the Leader's
/// read end, the Launcher's write end, each under its role name and id.
/// Each message is exactly what the Ipc accepts at its stage.
pub fn handshake_messages(
    logger_pid: i32,
    leader_pid: i32,
    launcher_pid: i32,
    ipc_pid: i32,
    my_pid: i32,
    logger_ctl: CtlEnd<Write>,
    leader_ctl: CtlEnd<Read>,
    launcher_ctl: CtlEnd<Write>,
) -> (r: (Message, Message, Message))
    ensures
        r.0.wf() && r.1.wf() && r.2.wf(),
        handshake_accepts(0, r.0.data_view(), r.0.fd_view()),
        handshake_accepts(1, r.1.data_view(), r.1.fd_view()),
        handshake_accepts(2, r.2.data_view(), r.2.fd_view()),
        r.0.data_view().meta.pid == Some(logger_pid) && r.0.fd_view() == Some(
            (logger_ctl.fd() as i32),
        ),
        r.1.data_view().meta.pid == Some(leader_pid) && r.1.fd_view() == Some(
            (leader_ctl.fd() as i32),
        ),
        r.2.data_view().meta.pid == Some(launcher_pid) && r.2.fd_view() == Some(
            (launcher_ctl.fd() as i32),
        ),
        r.0.data_view().meta.source_pid == my_pid && r.0.data_view().meta.target_pid == Some(
            ipc_pid,
        ),
        r.1.data_view().meta.source_pid == my_pid && r.1.data_view().meta.target_pid == Some(
            ipc_pid,
        ),
        r.2.data_view().meta.source_pid == my_pid && r.2.data_view().meta.target_pid == Some(
            ipc_pid,
        ),
{
    let meta0 = Metadata::new(
        Some(String::from_str("logger")),
        Some(logger_pid),
        my_pid,
        Some(ipc_pid),
    );
    let m0 = match Message::prepare_message(meta0, logger_ctl) {
        Ok(m) => m,
        Err(_) => vstd::pervasive::unreached(),
    };
    let meta1 = Metadata::new(
        Some(String::from_str("leader")),
        Some(leader_pid),
        my_pid,
        Some(ipc_pid),
    );
    let m1 = match Message::prepare_message(meta1, leader_ctl) {
        Ok(m) => m,
        Err(_) => vstd::pervasive::unreached(),
    };
    let meta2 = Metadata::new(
        Some(String::from_str("launcher")),
        Some(launcher_pid),
        my_pid,
        Some(ipc_pid),
    );
    let m2 = match Message::prepare_message(meta2, launcher_ctl) {
        Ok(m) => m,
        Err(_) => vstd::pervasive::unreached(),
    };
    (m0, m1, m2)
}

/// The diagnostic when a root role exits: names the role that died first.
pub open spec fn spec_root_exit_message(r: Role) -> Seq<char> {
    spec_role_display(r) + " unexpectedly exited"@
}

/// Formats the tear-down diagnostic, for example `Logger unexpectedly
/// exited`.
pub fn root_exit_message(role: Role) -> (r: String)
    ensures
        r@ == spec_root_exit_message(role),
{
    proof {
        reveal_strlit(" unexpectedly exited");
    }
    let mut s = String::from_str(role.display_name());
    s.append(" unexpectedly exited");
    proof {
        assert(s@ =~= spec_root_exit_message(role));
    }
    s
}

/// The fatal error Init raises when a root role exits: any non-zero exit of
/// a root role tears the whole tree down.
pub fn root_exit_error(role: Role) -> (r: Error)
    ensures
        r.kind == ErrorKind::UnexpectedExit,
        r.detail matches Some(d) && d@ == spec_root_exit_message(role),
{
    Error::with_detail(ErrorKind::UnexpectedExit, root_exit_message(role))
}

} // verus!
