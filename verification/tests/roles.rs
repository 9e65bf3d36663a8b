use vermilionrc::control::{Control, CtlEnd};
use vermilionrc::dec::{i64_to_string, parse_u64, u64_to_string};
use vermilionrc::fork::{spawn_plan, StdioMode};
use vermilionrc::init::{handshake_messages, root_exit_error, root_exit_message, root_spawn_order};
use vermilionrc::msg::{Message, Metadata};
use vermilionrc::pipe::Write;
use vermilionrc::procs::ipc::{
    registration_entry, route_command, verify_pid, Handshake, LeaderInbox, RouteDecision,
    Supervised, SupervisedTable,
};
use vermilionrc::procs::launcher::{launch_target, registration_message, Launcher};
use vermilionrc::procs::leader::{
    command_message, Command, CommandResponse, Leader, Target, COMMAND_QUEUE_CAPACITY,
    SOCKET_CTL_PATH,
};
use vermilionrc::procs::logger::{format_log_line, logger_step, LineBuffer, Logger, ReadEvent};
use vermilionrc::procs::supervisor::{ChildExit, Status, Supervisor, SupervisorAction};
use vermilionrc::procs::{
    format_ctl_arg, parse_ctl_arg, HasCtlIn, HasCtlOut, NoCtlIn, NoCtlOut, Role, CONTROL_IN,
    CONTROL_OUT,
};
use vermilionrc::ErrorKind;

#[test]
fn handshake_rejects_wrong_order() {
    let mut hs = Handshake::new();
    // the Leader's registration arriving first is wrong: the Logger's is due
    let ctl = Control::new().unwrap();
    let (cr, cw) = ctl.split();
    let meta = Metadata::new(Some(String::from("leader")), Some(42), 1, Some(2));
    let msg = Message::prepare_message(meta, cr).unwrap();
    let err = hs.step(msg).unwrap_err();
    assert_eq!(err.kind, ErrorKind::HandshakeError);
    assert_eq!(err.detail.as_deref(), Some("leader"));
    let _ = cw.dispose();
}

#[test]
fn handshake_rejects_wrong_direction() {
    let mut hs = Handshake::new();
    // right name, but a read end where a write end is due
    let ctl = Control::new().unwrap();
    let (cr, cw) = ctl.split();
    let meta = Metadata::new(Some(String::from("logger")), Some(42), 1, Some(2));
    let msg = Message::prepare_message(meta, cr).unwrap();
    let err = hs.step(msg).unwrap_err();
    assert_eq!(err.kind, ErrorKind::HandshakeError);
    assert_eq!(err.detail.as_deref(), Some("logger"));
    let _ = cw.dispose();
}

#[test]
fn handshake_accepts_the_fixed_order() {
    let c1 = Control::new().unwrap();
    let (c1r, c1w) = c1.split();
    let c2 = Control::new().unwrap();
    let (c2r, c2w) = c2.split();
    let c3 = Control::new().unwrap();
    let (c3r, c3w) = c3.split();
    let (m0, m1, m2) = handshake_messages(10, 11, 12, 99, 1, c1w, c2r, c3w);
    let mut hs = Handshake::new();
    hs.step(m0).unwrap();
    hs.step(m1).unwrap();
    hs.step(m2).unwrap();
    let peers = hs.into_peers();
    assert_eq!(peers.logger_pid, 10);
    assert_eq!(peers.leader_pid, 11);
    assert_eq!(peers.launcher_pid, 12);
    let _ = peers.logger_ctl.dispose();
    let _ = peers.leader_ctl.dispose();
    let _ = peers.launcher_ctl.dispose();
    let _ = c1r.dispose();
    let _ = c2w.dispose();
    let _ = c3r.dispose();
}

#[test]
fn leader_inbox_pairs_command_and_response_channel() {
    let mut inbox = LeaderInbox::new();
    let cmd_msg = command_message(Command::List, 7, Some(9)).unwrap();
    assert!(matches!(inbox.accept(cmd_msg), Ok(None)));
    let ctl = Control::new().unwrap();
    let (cr, cw) = ctl.split();
    let chan_msg =
        Message::prepare_message(Metadata::new(None, None, 7, Some(9)), cw).unwrap();
    match inbox.accept(chan_msg) {
        Ok(Some((cmd, end))) => {
            assert_eq!(cmd, Command::List);
            let endfd = end.as_raw_fd();
            assert_eq!(end.dispose(), Some(endfd));
        },
        other => panic!("expected the completed pair, got {:?}", other.map(|_| ())),
    }
    let _ = cr.dispose();
}

#[test]
fn leader_inbox_refuses_a_channel_with_no_command_pending() {
    let mut inbox = LeaderInbox::new();
    let ctl = Control::new().unwrap();
    let (cr, cw) = ctl.split();
    let chan_msg =
        Message::prepare_message(Metadata::new(None, None, 7, Some(9)), cw).unwrap();
    let err = inbox.accept(chan_msg).unwrap_err();
    assert_eq!(err.kind, ErrorKind::ProtocolError);
    let _ = cr.dispose();
}

#[test]
fn leader_inbox_refuses_two_commands_in_a_row() {
    let mut inbox = LeaderInbox::new();
    let first = command_message(Command::List, 7, None).unwrap();
    assert!(matches!(inbox.accept(first), Ok(None)));
    let second = command_message(Command::List, 7, None).unwrap();
    let err = inbox.accept(second).unwrap_err();
    assert_eq!(err.kind, ErrorKind::ProtocolError);
}

fn detached_ctl() -> CtlEnd<Write> {
    CtlEnd::from_raw(-1)
}

#[test]
fn list_fans_out_one_item_per_child() {
    let mut table = SupervisedTable::new();
    table.register(Supervised {
        id: 100,
        name: String::from("a"),
        status: Status::Running,
        supervisor_ctl: detached_ctl(),
    });
    table.register(Supervised {
        id: 200,
        name: String::from("b"),
        status: Status::Starting,
        supervisor_ctl: detached_ctl(),
    });
    assert_eq!(table.len(), 2);
    let items = table.list_responses();
    assert_eq!(items.len(), 2);
    assert_eq!(
        items[0],
        CommandResponse::ListItem { name: String::from("a"), id: 100, status: Status::Running }
    );
    assert_eq!(
        items[1],
        CommandResponse::ListItem { name: String::from("b"), id: 200, status: Status::Starting }
    );
    assert_eq!(route_command(&table, &Command::List), RouteDecision::FanOutList);
}

#[test]
fn targeted_commands_route_by_pid_or_name() {
    let mut table = SupervisedTable::new();
    table.register(Supervised {
        id: 100,
        name: String::from("a"),
        status: Status::Running,
        supervisor_ctl: detached_ctl(),
    });
    table.register(Supervised {
        id: 200,
        name: String::from("b"),
        status: Status::Running,
        supervisor_ctl: detached_ctl(),
    });
    assert_eq!(
        route_command(&table, &Command::Stop(Target::Pid(100))),
        RouteDecision::Deliver(100)
    );
    assert_eq!(
        route_command(&table, &Command::Status(Target::Name(String::from("b")))),
        RouteDecision::Deliver(200)
    );
    assert_eq!(
        route_command(&table, &Command::Stop(Target::Pid(5))),
        RouteDecision::UnknownTarget
    );
    assert_eq!(
        route_command(&table, &Command::Restart(Target::Name(String::from("c")))),
        RouteDecision::UnknownTarget
    );
    // exit of a supervised child removes its pair
    let gone = table.remove(100).unwrap();
    assert_eq!(gone.id, 100);
    let _ = gone.supervisor_ctl.dispose();
    assert!(table.remove(100).is_none());
    assert_eq!(table.len(), 1);
    assert!(!table.contains_pid(100));
    assert!(table.contains_pid(200));
}

#[test]
fn registration_replaces_an_entry_with_the_same_pid() {
    let mut table = SupervisedTable::new();
    table.register(Supervised {
        id: 100,
        name: String::from("a"),
        status: Status::Running,
        supervisor_ctl: detached_ctl(),
    });
    let replaced = table.register(Supervised {
        id: 100,
        name: String::from("a2"),
        status: Status::Restarting,
        supervisor_ctl: detached_ctl(),
    });
    assert!(replaced);
    assert_eq!(table.len(), 1);
    assert_eq!(table.lookup_name(&String::from("a2")), Some(100));
    assert_eq!(table.lookup_name(&String::from("a")), None);
}

#[test]
fn verify_pid_rejects_mismatched_senders() {
    let meta = Metadata::new(None, None, 41, None);
    assert!(verify_pid(&meta, 41));
    assert!(!verify_pid(&meta, 42));
}

#[test]
fn supervisor_spawns_exactly_its_budget() {
    let mut sup = Supervisor::new(3);
    assert_eq!(sup.next_action(), SupervisorAction::Spawn);
    assert_eq!(sup.status_after_exit(ChildExit::Code(1)), Status::Restarting);
    assert_eq!(sup.next_action(), SupervisorAction::Spawn);
    assert_eq!(sup.status_after_exit(ChildExit::Code(1)), Status::Restarting);
    assert_eq!(sup.next_action(), SupervisorAction::Spawn);
    // the budget is used up: the final exit keeps its code
    assert_eq!(sup.status_after_exit(ChildExit::Code(1)), Status::Exited(1));
    assert_eq!(sup.next_action(), SupervisorAction::Exit);
    assert_eq!(sup.next_action(), SupervisorAction::Exit);
}

#[test]
fn supervisor_reports_signal_deaths_as_crashes() {
    let mut sup = Supervisor::new(1);
    assert_eq!(sup.next_action(), SupervisorAction::Spawn);
    assert_eq!(sup.status_after_exit(ChildExit::Signal(9)), Status::Crashed(9));
    assert_eq!(sup.next_action(), SupervisorAction::Exit);
}

#[test]
fn supervisor_with_no_budget_exits_at_once() {
    let mut sup = Supervisor::new(0);
    assert_eq!(sup.next_action(), SupervisorAction::Exit);
}

#[test]
fn launch_directives_are_init_and_start() {
    assert!(launch_target(&Command::Init(Target::Pid(1))).is_some());
    assert!(launch_target(&Command::Start(Target::Name(String::from("x")))).is_some());
    assert!(launch_target(&Command::Stop(Target::Pid(1))).is_none());
    assert!(launch_target(&Command::List).is_none());
}

#[test]
fn registration_message_names_the_new_supervisor() {
    let ctl = Control::new().unwrap();
    let (cr, cw) = ctl.split();
    let cwfd = cw.as_raw_fd();
    let msg = registration_message(String::from("web"), 321, 5, 9, cw).unwrap();
    assert_eq!(msg.metadata().proc_name(), Some("web"));
    assert_eq!(msg.metadata().pid(), Some(321));
    assert_eq!(msg.metadata().source_pid(), 5);
    assert_eq!(msg.metadata().target_pid(), Some(9));
    assert_eq!(msg.dispose(), Some(cwfd));
    let _ = cr.dispose();
}

#[test]
fn root_role_death_is_fatal_with_a_diagnostic() {
    assert_eq!(root_exit_message(Role::Logger), "Logger unexpectedly exited");
    assert_eq!(root_exit_message(Role::Ipc), "Ipc unexpectedly exited");
    let err = root_exit_error(Role::Logger);
    assert_eq!(err.kind, ErrorKind::UnexpectedExit);
    assert_eq!(err.detail.as_deref(), Some("Logger unexpectedly exited"));
}

#[test]
fn roles_spawn_in_the_fixed_order() {
    let order = root_spawn_order();
    assert_eq!(order, vec![Role::Logger, Role::Leader, Role::Launcher, Role::Ipc]);
}

#[test]
fn spawn_plans_match_the_role_contracts() {
    let p = spawn_plan::<Logger, HasCtlIn, NoCtlOut>();
    assert_eq!(p.subcommand, "logger");
    assert!(p.control_in);
    assert!(!p.control_out);
    assert_eq!(p.stdio.stdin, StdioMode::Null);
    assert_eq!(p.stdio.stdout, StdioMode::Inherit);
    assert_eq!(p.stdio.stderr, StdioMode::Inherit);
    let p = spawn_plan::<Leader, NoCtlIn, HasCtlOut>();
    assert_eq!(p.subcommand, "leader");
    assert!(!p.control_in);
    assert!(p.control_out);
    assert_eq!(p.stdio.stdin, StdioMode::Inherit);
    assert_eq!(p.stdio.stdout, StdioMode::Piped);
    let p = spawn_plan::<Launcher, HasCtlIn, HasCtlOut>();
    assert_eq!(p.subcommand, "launcher");
    assert!(p.control_in && p.control_out);
    let p = spawn_plan::<vermilionrc::procs::ipc::Ipc, HasCtlIn, HasCtlOut>();
    assert_eq!(p.subcommand, "ipc");
    assert_eq!(p.stdio.stdin, StdioMode::Piped);
}

#[test]
fn control_flags_print_and_parse_back() {
    assert_eq!(format_ctl_arg(CONTROL_IN, 5), "--control-in=5");
    assert_eq!(format_ctl_arg(CONTROL_OUT, 123), "--control-out=123");
    assert_eq!(parse_ctl_arg("--control-in=5", CONTROL_IN), Some(5));
    assert_eq!(parse_ctl_arg(&format_ctl_arg(CONTROL_OUT, 123), CONTROL_OUT), Some(123));
    assert_eq!(parse_ctl_arg("--control-in=2147483647", CONTROL_IN), Some(2147483647));
}

#[test]
fn malformed_control_flags_are_rejected() {
    assert_eq!(parse_ctl_arg("--control-in=", CONTROL_IN), None);
    assert_eq!(parse_ctl_arg("--control-in=12x", CONTROL_IN), None);
    assert_eq!(parse_ctl_arg("--control-out=5", CONTROL_IN), None);
    assert_eq!(parse_ctl_arg("--control-in=2147483648", CONTROL_IN), None);
    assert_eq!(parse_ctl_arg("control-in=5", CONTROL_IN), None);
}

#[test]
fn decimal_text_prints_and_parses() {
    assert_eq!(u64_to_string(0), "0");
    assert_eq!(u64_to_string(18446744073709551615), "18446744073709551615");
    assert_eq!(i64_to_string(-1), "-1");
    assert_eq!(i64_to_string(-9223372036854775808), "-9223372036854775808");
    assert_eq!(parse_u64("007"), Some(7));
    assert_eq!(parse_u64(""), None);
    assert_eq!(parse_u64("18446744073709551615"), Some(18446744073709551615));
    assert_eq!(parse_u64("18446744073709551616"), None);
    assert_eq!(parse_u64("1a"), None);
}

#[test]
fn logger_lines_have_the_documented_shapes() {
    assert_eq!(
        format_log_line("leader", 42, "ready"),
        "LOG:leader[42]: ready"
    );
    assert_eq!(format_log_line("unknown", -1, ""), "LOG:unknown[-1]: ");
    let step = logger_step("x", 7, ReadEvent::WouldBlock);
    assert_eq!(step.line.as_deref(), Some("LOG: WOULD_BLOCK"));
    assert!(!step.done);
    let step = logger_step("x", 7, ReadEvent::Eof);
    assert_eq!(step.line.as_deref(), Some("7 LOGGING SHUTDOWN"));
    assert!(step.done);
    let step = logger_step("x", 7, ReadEvent::Failed);
    assert_eq!(step.line.as_deref(), Some("7 LOG: error reading from pipe"));
    assert!(step.done);
}

#[test]
fn line_buffer_hands_out_whole_lines() {
    let mut lines = LineBuffer::new();
    lines.push_bytes(b"first li");
    assert_eq!(lines.next_line(), None);
    lines.push_bytes(b"ne\nsecond\nthird");
    assert_eq!(lines.next_line(), Some(b"first line".to_vec()));
    assert_eq!(lines.next_line(), Some(b"second".to_vec()));
    assert_eq!(lines.next_line(), None);
    lines.push_bytes(b"\n");
    assert_eq!(lines.next_line(), Some(b"third".to_vec()));
    lines.push_bytes(b"\n");
    assert_eq!(lines.next_line(), Some(Vec::new()));
}

#[test]
fn registrations_become_starting_entries() {
    let ctl = Control::new().unwrap();
    let (cr, cw) = ctl.split();
    let cwfd = cw.as_raw_fd();
    let msg = Message::prepare_message(
        Metadata::new(Some(String::from("web")), Some(321), 5, Some(9)),
        cw,
    )
    .unwrap();
    let entry = registration_entry(msg).unwrap();
    assert_eq!(entry.id, 321);
    assert_eq!(entry.name, "web");
    assert_eq!(entry.status, Status::Starting);
    assert_eq!(entry.supervisor_ctl.as_raw_fd(), cwfd);
    let _ = entry.supervisor_ctl.dispose();
    let _ = cr.dispose();
}

#[test]
fn nameless_registrations_are_a_protocol_error() {
    let ctl = Control::new().unwrap();
    let (cr, cw) = ctl.split();
    let msg =
        Message::prepare_message(Metadata::new(None, Some(321), 5, Some(9)), cw).unwrap();
    let err = registration_entry(msg).unwrap_err();
    assert_eq!(err.kind, ErrorKind::ProtocolError);
    let _ = cr.dispose();
}

#[test]
fn leader_constants_match_the_design() {
    assert_eq!(COMMAND_QUEUE_CAPACITY, 3);
    assert_eq!(SOCKET_CTL_PATH, "/tmp/vermilion.ctl");
}
