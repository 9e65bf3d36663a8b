use vermilionrc::codec::{decode_message_data, encode_message_data};
use vermilionrc::msg::{Message, MessageData, MessageKind, Metadata};
use vermilionrc::pipe::Pipe;
use vermilionrc::procs::leader::{Command, CommandResponse, Target};
use vermilionrc::procs::supervisor::Status;
use vermilionrc::ErrorKind;

fn meta(source_pid: i32) -> Metadata {
    Metadata::new(None, None, source_pid, None)
}

#[test]
fn list_command_envelope_has_the_expected_bytes() {
    let data = MessageData::new(meta(7), Some(MessageKind::Command(Command::List)));
    let bytes = encode_message_data(&data).unwrap();
    // no name, no pid, source 7, no target, kind present: command, list
    assert_eq!(bytes, vec![0, 0, 7, 0, 0, 0, 0, 1, 4, 5]);
}

#[test]
fn named_metadata_envelope_has_the_expected_bytes() {
    let data = MessageData::new(
        Metadata::new(Some(String::from("ab")), Some(-1), 258, Some(9)),
        Some(MessageKind::ReadPipeEnd),
    );
    let bytes = encode_message_data(&data).unwrap();
    let expected = vec![
        1, 2, 0, 0, 0, 97, 98, // name "ab", length-prefixed
        1, 255, 255, 255, 255, // pid -1
        2, 1, 0, 0, // source 258
        1, 9, 0, 0, 0, // target 9
        1, 0, // kind present: read pipe end
    ];
    assert_eq!(bytes, expected);
}

#[test]
fn command_envelopes_round_trip() {
    let cases = vec![
        Command::List,
        Command::Init(Target::Name(String::from("web"))),
        Command::Start(Target::Pid(4294967295)),
        Command::Restart(Target::Name(String::from(""))),
        Command::Stop(Target::Pid(0)),
        Command::Status(Target::Name(String::from("svc-\u{00e9}"))),
    ];
    for cmd in cases {
        let data = MessageData::new(
            Metadata::new(Some(String::from("leader")), Some(12), -3, Some(44)),
            Some(MessageKind::Command(cmd)),
        );
        let bytes = encode_message_data(&data).unwrap();
        let back = decode_message_data(&bytes).unwrap();
        assert_eq!(back, data);
    }
}

#[test]
fn response_envelopes_round_trip() {
    let statuses = vec![
        Status::Starting,
        Status::Running,
        Status::Exited(-1),
        Status::Crashed(15),
        Status::Restarting,
        Status::Stopped,
    ];
    for status in statuses {
        let data = MessageData::new(
            meta(1),
            Some(MessageKind::CommandResponse(CommandResponse::ListItem {
                name: String::from("a"),
                id: 100,
                status,
            })),
        );
        let bytes = encode_message_data(&data).unwrap();
        let back = decode_message_data(&bytes).unwrap();
        assert_eq!(back, data);
    }
}

#[test]
fn endpoint_and_empty_envelopes_round_trip() {
    for kind in [
        Some(MessageKind::ReadPipeEnd),
        Some(MessageKind::WritePipeEnd),
        Some(MessageKind::ReadCtlEnd),
        Some(MessageKind::WriteCtlEnd),
        None,
    ] {
        let data = MessageData::new(Metadata::new(None, Some(2), 3, None), kind);
        let bytes = encode_message_data(&data).unwrap();
        let back = decode_message_data(&bytes).unwrap();
        assert_eq!(back, data);
    }
}

#[test]
fn truncated_envelope_is_a_protocol_error() {
    let data = MessageData::new(meta(7), Some(MessageKind::Command(Command::List)));
    let bytes = encode_message_data(&data).unwrap();
    for cut in 0..bytes.len() {
        let err = decode_message_data(&bytes[..cut]).unwrap_err();
        assert_eq!(err.kind, ErrorKind::ProtocolError);
    }
}

#[test]
fn trailing_bytes_are_a_protocol_error() {
    let data = MessageData::new(meta(7), Some(MessageKind::Command(Command::List)));
    let mut bytes = encode_message_data(&data).unwrap();
    bytes.push(0);
    let err = decode_message_data(&bytes).unwrap_err();
    assert_eq!(err.kind, ErrorKind::ProtocolError);
}

#[test]
fn unknown_tags_are_a_protocol_error() {
    // option tag other than 0 or 1 at the very start
    let err = decode_message_data(&[9, 0, 7, 0, 0, 0, 0, 0]).unwrap_err();
    assert_eq!(err.kind, ErrorKind::ProtocolError);
}

#[test]
fn invalid_utf8_in_a_name_is_a_protocol_error() {
    // name present, one byte long, 0xFF: not UTF-8
    let bytes = vec![1, 1, 0, 0, 0, 255, 0, 9, 0, 0, 0, 0, 0];
    let err = decode_message_data(&bytes).unwrap_err();
    assert_eq!(err.kind, ErrorKind::ProtocolError);
}

#[test]
fn endpoint_message_must_attach_a_descriptor_to_send() {
    let m = Message {
        data: MessageData::new(meta(1), Some(MessageKind::ReadPipeEnd)),
        fd: None,
    };
    assert_eq!(m.into_send_parts().unwrap_err().kind, ErrorKind::InvalidKind);
}

#[test]
fn command_message_must_not_attach_a_descriptor_to_send() {
    let m = Message {
        data: MessageData::new(meta(1), Some(MessageKind::Command(Command::List))),
        fd: Some(99),
    };
    assert_eq!(m.into_send_parts().unwrap_err().kind, ErrorKind::InvalidKind);
}

#[test]
fn message_without_a_kind_refuses_to_send() {
    let m = Message { data: MessageData::new(meta(1), None), fd: None };
    assert_eq!(m.into_send_parts().unwrap_err().kind, ErrorKind::InvalidKind);
}

#[test]
fn prepared_endpoint_message_sends_its_descriptor() {
    let pipe = Pipe::new().unwrap();
    let (r, w) = pipe.split();
    let rfd = r.as_raw_fd();
    let m = Message::prepare_message(meta(5), r).unwrap();
    let (bytes, fd) = m.into_send_parts().unwrap();
    assert_eq!(fd, Some(rfd));
    let back = decode_message_data(&bytes).unwrap();
    assert_eq!(back.kind, Some(MessageKind::ReadPipeEnd));
    nix::unistd::close(rfd).unwrap();
    let wfd = w.as_raw_fd();
    assert_eq!(w.dispose(), Some(wfd));
}

#[test]
fn received_endpoint_message_requires_a_descriptor() {
    let data = MessageData::new(meta(1), Some(MessageKind::WritePipeEnd));
    let bytes = encode_message_data(&data).unwrap();
    let err = Message::from_received(&bytes, None).unwrap_err();
    assert_eq!(err.kind, ErrorKind::ProtocolError);
    let mut msg = Message::from_received(&bytes, Some(7)).unwrap();
    let end = msg.take_write_pipe_end().unwrap();
    assert_eq!(end.into_raw_fd(), 7);
}

#[test]
fn received_command_message_refuses_a_descriptor() {
    let data = MessageData::new(meta(1), Some(MessageKind::Command(Command::List)));
    let bytes = encode_message_data(&data).unwrap();
    let err = Message::from_received(&bytes, Some(7)).unwrap_err();
    assert_eq!(err.kind, ErrorKind::ProtocolError);
    let mut msg = Message::from_received(&bytes, None).unwrap();
    assert_eq!(msg.take_command(), Some(Command::List));
    assert!(msg.kind().is_none());
}

#[test]
fn received_envelope_must_carry_a_kind() {
    let data = MessageData::new(meta(1), None);
    let bytes = encode_message_data(&data).unwrap();
    let err = Message::from_received(&bytes, None).unwrap_err();
    assert_eq!(err.kind, ErrorKind::ProtocolError);
}

#[test]
fn accessors_refuse_mismatched_kinds() {
    let data = MessageData::new(meta(1), Some(MessageKind::ReadCtlEnd));
    let bytes = encode_message_data(&data).unwrap();
    let mut msg = Message::from_received(&bytes, Some(8)).unwrap();
    assert!(msg.take_read_pipe_end().is_none());
    assert!(msg.take_write_ctl_end().is_none());
    assert!(msg.take_command().is_none());
    let end = msg.take_read_ctl_end().unwrap();
    assert_eq!(end.into_raw_fd(), 8);
    // both the kind and the descriptor are consumed now
    assert!(msg.take_read_ctl_end().is_none());
    assert_eq!(msg.dispose(), None);
}

#[test]
fn take_kind_leaves_metadata_and_descriptor() {
    let data = MessageData::new(
        Metadata::new(Some(String::from("x")), None, 4, None),
        Some(MessageKind::Command(Command::List)),
    );
    let bytes = encode_message_data(&data).unwrap();
    let mut msg = Message::from_received(&bytes, None).unwrap();
    let kind = msg.take_kind().unwrap();
    assert_eq!(kind, MessageKind::Command(Command::List));
    assert!(msg.take_kind().is_none());
    assert_eq!(msg.metadata().proc_name(), Some("x"));
    assert_eq!(msg.metadata().source_pid(), 4);
}

#[test]
fn dropped_message_closes_its_descriptor_exactly_once() {
    let pipe = Pipe::new().unwrap();
    let (r, w) = pipe.split();
    let rfd = r.as_raw_fd();
    let msg = Message::prepare_message(meta(2), r).unwrap();
    assert!(nix::sys::stat::fstat(rfd).is_ok());
    assert_eq!(msg.dispose(), Some(rfd));
    assert!(nix::sys::stat::fstat(rfd).is_err());
    let wfd = w.as_raw_fd();
    assert_eq!(w.dispose(), Some(wfd));
}

#[test]
fn list_items_travel_back_through_the_response_channel() {
    let item = CommandResponse::ListItem {
        name: String::from("a"),
        id: 100,
        status: Status::Running,
    };
    let msg =
        Message::prepare_message(Metadata::new(None, None, 3, None), item.clone()).unwrap();
    let (bytes, fd) = msg.into_send_parts().unwrap();
    assert_eq!(fd, None);
    let mut back = Message::from_received(&bytes, None).unwrap();
    assert_eq!(back.take_command_response(), Some(item));
    assert!(back.take_command_response().is_none());
}

#[test]
fn my_pid_is_the_calling_process() {
    assert_eq!(Message::my_pid(), nix::unistd::getpid().as_raw());
}
