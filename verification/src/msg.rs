use vstd::prelude::*;

use crate::control::CtlEnd;
use crate::error::{Error, ErrorKind};
use crate::pipe::{closes_on_drop, PipeEnd, Read, Write};
use crate::procs::leader::{Command, CommandResponse, CommandResponseView, CommandView};
use crate::sys;

verus! {

/// The payload discriminator of an envelope: either one transferred endpoint
/// (whose descriptor rides along as ancillary data) or a command-family
/// payload.
#[derive(Debug, PartialEq, Eq)]
pub enum MessageKind {
    ReadPipeEnd,
    WritePipeEnd,
    ReadCtlEnd,
    WriteCtlEnd,
    Command(Command),
    CommandResponse(CommandResponse),
}

/// The mathematical shape of a `MessageKind`.
pub enum MessageKindView {
    ReadPipeEnd,
    WritePipeEnd,
    ReadCtlEnd,
    WriteCtlEnd,
    Command(CommandView),
    CommandResponse(CommandResponseView),
}

impl View for MessageKind {
    type V = MessageKindView;

    open spec fn view(&self) -> MessageKindView {
        match self {
            MessageKind::ReadPipeEnd => MessageKindView::ReadPipeEnd,
            MessageKind::WritePipeEnd => MessageKindView::WritePipeEnd,
            MessageKind::ReadCtlEnd => MessageKindView::ReadCtlEnd,
            MessageKind::WriteCtlEnd => MessageKindView::WriteCtlEnd,
            MessageKind::Command(c) => MessageKindView::Command(c@),
            MessageKind::CommandResponse(r) => MessageKindView::CommandResponse(r@),
        }
    }
}

/// Whether a kind denotes a transferred endpoint, in which case exactly one
/// descriptor must ride along with the envelope; a command-family kind
/// carries none.
pub open spec fn kind_carries_fd(k: MessageKindView) -> bool {
    match k {
        MessageKindView::ReadPipeEnd => true,
        MessageKindView::WritePipeEnd => true,
        MessageKindView::ReadCtlEnd => true,
        MessageKindView::WriteCtlEnd => true,
        MessageKindView::Command(_) => false,
        MessageKindView::CommandResponse(_) => false,
    }
}

impl MessageKind {
    /// Executable twin of `kind_carries_fd`.
    pub fn carries_fd(&self) -> (b: bool)
        ensures
            b == kind_carries_fd(self@),
    {
        match self {
            MessageKind::ReadPipeEnd => true,
            MessageKind::WritePipeEnd => true,
            MessageKind::ReadCtlEnd => true,
            MessageKind::WriteCtlEnd => true,
            MessageKind::Command(_) => false,
            MessageKind::CommandResponse(_) => false,
        }
    }
}

/// Envelope metadata: the logical role name this message is about, the
/// referenced process's id, the sender's id (mandatory), and the intended
/// recipient's id.
#[derive(Debug, PartialEq, Eq)]
pub struct Metadata {
    pub proc_name: Option<String>,
    pub pid: Option<i32>,
    pub source_pid: i32,
    pub target_pid: Option<i32>,
}

/// The mathematical shape of `Metadata`.
pub struct MetadataView {
    pub proc_name: Option<Seq<char>>,
    pub pid: Option<i32>,
    pub source_pid: i32,
    pub target_pid: Option<i32>,
}

impl View for Metadata {
    type V = MetadataView;

    open spec fn view(&self) -> MetadataView {
        MetadataView {
            proc_name: match self.proc_name {
                Some(ref s) => Some(s@),
                None => None,
            },
            pid: self.pid,
            source_pid: self.source_pid,
            target_pid: self.target_pid,
        }
    }
}

impl Metadata {
    pub fn new(proc_name: Option<String>, pid: Option<i32>, source_pid: i32, target_pid: Option<
        i32,
    >) -> (r: Metadata)
        ensures
            r@.proc_name == (match proc_name {
                Some(s) => Some(s@),
                None => None::<Seq<char>>,
            }),
            r@.pid == pid,
            r@.source_pid == source_pid,
            r@.target_pid == target_pid,
    {
        Metadata { proc_name, pid, source_pid, target_pid }
    }

    pub fn proc_name(&self) -> (r: Option<&str>)
        ensures
            r is Some <==> self@.proc_name is Some,
            r matches Some(s) ==> self@.proc_name == Some(s@),
    {
        match &self.proc_name {
            Some(s) => Some(s.as_str()),
            None => None,
        }
    }

    pub fn pid(&self) -> (r: Option<i32>)
        ensures
            r == self@.pid,
    {
        self.pid
    }

    pub fn source_pid(&self) -> (r: i32)
        ensures
            r == self@.source_pid,
    {
        self.source_pid
    }

    pub fn target_pid(&self) -> (r: Option<i32>)
        ensures
            r == self@.target_pid,
    {
        self.target_pid
    }
}

/// The serialized portion of a message: metadata plus the (consumable) kind.
#[derive(Debug, PartialEq, Eq)]
pub struct MessageData {
    pub meta: Metadata,
    pub kind: Option<MessageKind>,
}

/// The mathematical shape of `MessageData`.
pub struct MessageDataView {
    pub meta: MetadataView,
    pub kind: Option<MessageKindView>,
}

impl View for MessageData {
    type V = MessageDataView;

    open spec fn view(&self) -> MessageDataView {
        MessageDataView {
            meta: self.meta@,
            kind: match self.kind {
                Some(ref k) => Some(k@),
                None => None,
            },
        }
    }
}

impl MessageData {
    pub fn new(meta: Metadata, kind: Option<MessageKind>) -> (r: MessageData)
        ensures
            r@.meta == meta@,
            r@.kind == (match kind {
                Some(k) => Some(k@),
                None => None::<MessageKindView>,
            }),
    {
        MessageData { meta, kind }
    }
}

/// The envelope invariant: whenever the kind denotes a transferred endpoint,
/// exactly one descriptor is attached; otherwise none is.
pub open spec fn msg_wf(data: MessageDataView, fd: Option<i32>) -> bool {
    match data.kind {
        Some(k) => kind_carries_fd(k) <==> fd is Some,
        None => fd is None,
    }
}

/// Whenever a well-formed message's kind denotes a transferred endpoint, a
/// descriptor is attached to it.
pub proof fn lemma_endpoint_kind_has_descriptor(data: MessageDataView, fd: Option<i32>)
    requires
        msg_wf(data, fd),
        data.kind matches Some(k) && kind_carries_fd(k),
    ensures
        fd is Some,
{
}

/// A well-formed command-or-response message carries no descriptor.
pub proof fn lemma_command_message_has_no_descriptor(data: MessageDataView, fd: Option<i32>)
    requires
        msg_wf(data, fd),
        data.kind matches Some(k) && !kind_carries_fd(k),
    ensures
        fd is None,
{
}

/// Turns a value into the kind under which it travels, together with the
/// descriptor that must ride along, if any.
pub trait ToMessageKind: Sized {
    /// Whether the conversion succeeds.
    spec fn spec_ok(&self) -> bool;

    /// The kind this value travels under.
    spec fn spec_kind(&self) -> MessageKindView;

    /// The descriptor that rides along, if any.
    spec fn spec_fd(&self) -> Option<i32>;

    fn to_message_kind(self) -> (r: Result<(MessageKind, Option<i32>), Error>)
        ensures
            r is Ok <==> self.spec_ok(),
            r matches Ok((k, fd)) ==> k@ == self.spec_kind() && fd == self.spec_fd() && (
            kind_carries_fd(k@) <==> fd is Some),
    ;
}

impl ToMessageKind for PipeEnd<Read> {
    open spec fn spec_ok(&self) -> bool {
        true
    }

    open spec fn spec_kind(&self) -> MessageKindView {
        MessageKindView::ReadPipeEnd
    }

    open spec fn spec_fd(&self) -> Option<i32> {
        Some((self.fd() as i32))
    }

    fn to_message_kind(self) -> (r: Result<(MessageKind, Option<i32>), Error>)
        ensures
            r is Ok <==> self.spec_ok(),
            r matches Ok((k, fd)) ==> k@ == self.spec_kind() && fd == self.spec_fd() && (
            kind_carries_fd(k@) <==> fd is Some),
    {
        Ok((MessageKind::ReadPipeEnd, Some(self.into_raw_fd())))
    }
}

impl ToMessageKind for PipeEnd<Write> {
    open spec fn spec_ok(&self) -> bool {
        true
    }

    open spec fn spec_kind(&self) -> MessageKindView {
        MessageKindView::WritePipeEnd
    }

    open spec fn spec_fd(&self) -> Option<i32> {
        Some((self.fd() as i32))
    }

    fn to_message_kind(self) -> (r: Result<(MessageKind, Option<i32>), Error>)
        ensures
            r is Ok <==> self.spec_ok(),
            r matches Ok((k, fd)) ==> k@ == self.spec_kind() && fd == self.spec_fd() && (
            kind_carries_fd(k@) <==> fd is Some),
    {
        Ok((MessageKind::WritePipeEnd, Some(self.into_raw_fd())))
    }
}

impl ToMessageKind for CtlEnd<Read> {
    open spec fn spec_ok(&self) -> bool {
        true
    }

    open spec fn spec_kind(&self) -> MessageKindView {
        MessageKindView::ReadCtlEnd
    }

    open spec fn spec_fd(&self) -> Option<i32> {
        Some((self.fd() as i32))
    }

    fn to_message_kind(self) -> (r: Result<(MessageKind, Option<i32>), Error>)
        ensures
            r is Ok <==> self.spec_ok(),
            r matches Ok((k, fd)) ==> k@ == self.spec_kind() && fd == self.spec_fd() && (
            kind_carries_fd(k@) <==> fd is Some),
    {
        Ok((MessageKind::ReadCtlEnd, Some(self.into_raw_fd())))
    }
}

impl ToMessageKind for CtlEnd<Write> {
    open spec fn spec_ok(&self) -> bool {
        true
    }

    open spec fn spec_kind(&self) -> MessageKindView {
        MessageKindView::WriteCtlEnd
    }

    open spec fn spec_fd(&self) -> Option<i32> {
        Some((self.fd() as i32))
    }

    fn to_message_kind(self) -> (r: Result<(MessageKind, Option<i32>), Error>)
        ensures
            r is Ok <==> self.spec_ok(),
            r matches Ok((k, fd)) ==> k@ == self.spec_kind() && fd == self.spec_fd() && (
            kind_carries_fd(k@) <==> fd is Some),
    {
        Ok((MessageKind::WriteCtlEnd, Some(self.into_raw_fd())))
    }
}

/// A message as held in a process: the serialized portion plus the attached
/// descriptor, which belongs to the message until an accessor consumes it.
#[derive(Debug)]
pub struct Message {
    pub data: MessageData,
    pub fd: Option<i32>,
}

impl Message {
    /// The serialized portion.
    pub open spec fn data_view(&self) -> MessageDataView {
        self.data@
    }

    /// The attached descriptor.
    pub open spec fn fd_view(&self) -> Option<i32> {
        self.fd
    }

    /// The envelope invariant for this message.
    pub open spec fn wf(&self) -> bool {
        msg_wf(self.data_view(), self.fd_view())
    }

    /// The calling process's id.
    pub fn my_pid() -> i32 {
        sys::sys_getpid()
    }

    /// Builds a well-formed message carrying `data` under its kind, with the
    /// given metadata.
    pub fn prepare_message<T: ToMessageKind>(meta: Metadata, data: T) -> (r: Result<Message, Error>)
        ensures
            r is Ok <==> data.spec_ok(),
            r matches Ok(m) ==> m.wf() && m.data_view().meta == meta@ && m.data_view().kind
                == Some(data.spec_kind()) && m.fd_view() == data.spec_fd(),
    {
        let (kind, fd) = data.to_message_kind()?;
        Ok(Message { data: MessageData { meta, kind: Some(kind) }, fd })
    }

    /// Get the message metadata.
    pub fn metadata(&self) -> (r: &Metadata)
        ensures
            r@ == self.data_view().meta,
    {
        &self.data.meta
    }

    pub fn kind(&self) -> (r: Option<&MessageKind>)
        ensures
            r is Some <==> self.data_view().kind is Some,
            r matches Some(k) ==> self.data_view().kind == Some(k@),
    {
        match &self.data.kind {
            Some(k) => Some(k),
            None => None,
        }
    }

    /// Consumes and returns the kind, leaving the metadata and any attached
    /// descriptor in place.
    pub fn take_kind(&mut self) -> (r: Option<MessageKind>)
        ensures
            final(self).data_view().kind is None,
            final(self).data_view().meta == old(self).data_view().meta,
            final(self).fd_view() == old(self).fd_view(),
            r is Some <==> old(self).data_view().kind is Some,
            r matches Some(k) ==> old(self).data_view().kind == Some(k@),
    {
        self.data.kind.take()
    }

    /// Consumes the kind and descriptor when this message carries a read
    /// pipe end; otherwise leaves the message unchanged.
    pub fn take_read_pipe_end(&mut self) -> (r: Option<PipeEnd<Read>>)
        ensures
            take_end_post(
                *old(self),
                *final(self),
                MessageKindView::ReadPipeEnd,
                match r {
                    Some(ref p) => Some(p.fd() as i32),
                    None => None,
                },
            ),
    {
        match &self.data.kind {
            Some(MessageKind::ReadPipeEnd) => match self.fd {
                Some(fd) => {
                    self.fd = None;
                    self.data.kind = None;
                    Some(PipeEnd::from_raw(fd))
                },
                None => None,
            },
            _ => None,
        }
    }

    /// Consumes the kind and descriptor when this message carries a write
    /// pipe end; otherwise leaves the message unchanged.
    pub fn take_write_pipe_end(&mut self) -> (r: Option<PipeEnd<Write>>)
        ensures
            take_end_post(
                *old(self),
                *final(self),
                MessageKindView::WritePipeEnd,
                match r {
                    Some(ref p) => Some(p.fd() as i32),
                    None => None,
                },
            ),
    {
        match &self.data.kind {
            Some(MessageKind::WritePipeEnd) => match self.fd {
                Some(fd) => {
                    self.fd = None;
                    self.data.kind = None;
                    Some(PipeEnd::from_raw(fd))
                },
                None => None,
            },
            _ => None,
        }
    }

    /// Consumes the kind and descriptor when this message carries a read
    /// control end; otherwise leaves the message unchanged.
    pub fn take_read_ctl_end(&mut self) -> (r: Option<CtlEnd<Read>>)
        ensures
            take_end_post(
                *old(self),
                *final(self),
                MessageKindView::ReadCtlEnd,
                match r {
                    Some(ref p) => Some(p.fd() as i32),
                    None => None,
                },
            ),
    {
        match &self.data.kind {
            Some(MessageKind::ReadCtlEnd) => match self.fd {
                Some(fd) => {
                    self.fd = None;
                    self.data.kind = None;
                    Some(CtlEnd::from_raw(fd))
                },
                None => None,
            },
            _ => None,
        }
    }

    /// Consumes the kind and descriptor when this message carries a write
    /// control end; otherwise leaves the message unchanged.
    pub fn take_write_ctl_end(&mut self) -> (r: Option<CtlEnd<Write>>)
        ensures
            take_end_post(
                *old(self),
                *final(self),
                MessageKindView::WriteCtlEnd,
                match r {
                    Some(ref p) => Some(p.fd() as i32),
                    None => None,
                },
            ),
    {
        match &self.data.kind {
            Some(MessageKind::WriteCtlEnd) => match self.fd {
                Some(fd) => {
                    self.fd = None;
                    self.data.kind = None;
                    Some(CtlEnd::from_raw(fd))
                },
                None => None,
            },
            _ => None,
        }
    }

    /// Consumes the kind when this message carries a command; otherwise
    /// leaves the message unchanged.
    pub fn take_command(&mut self) -> (r: Option<Command>)
        ensures
            take_payload_post(
                *old(self),
                *final(self),
                match r {
                    Some(ref c) => Some(MessageKindView::Command(c@)),
                    None => None,
                },
                old(self).data_view().kind matches Some(k) && k is Command,
            ),
    {
        match &self.data.kind {
            Some(MessageKind::Command(_)) => match self.data.kind.take() {
                Some(MessageKind::Command(c)) => Some(c),
                _ => None,
            },
            _ => None,
        }
    }

    /// Consumes the kind when this message carries a command response;
    /// otherwise leaves the message unchanged.
    pub fn take_command_response(&mut self) -> (r: Option<CommandResponse>)
        ensures
            take_payload_post(
                *old(self),
                *final(self),
                match r {
                    Some(ref c) => Some(MessageKindView::CommandResponse(c@)),
                    None => None,
                },
                old(self).data_view().kind matches Some(k) && k is CommandResponse,
            ),
    {
        match &self.data.kind {
            Some(MessageKind::CommandResponse(_)) => match self.data.kind.take() {
                Some(MessageKind::CommandResponse(c)) => Some(c),
                _ => None,
            },
            _ => None,
        }
    }

    /// The compute half of sending: validates the kind/descriptor relation
    /// and encodes the envelope. On success hands back the datagram bytes
    /// together with the descriptor to place in the ancillary rights
    /// message; ownership of the descriptor passes to the caller, who closes
    /// the local duplicate once the kernel has accepted the datagram.
    pub fn into_send_parts(self) -> (r: Result<(Vec<u8>, Option<i32>), Error>)
        ensures
            r is Ok <==> (self.data_view().kind is Some && msg_wf(self.data_view(), self.fd_view())
                && crate::codec::data_encodable(self.data_view())),
            r matches Ok((bytes, fd)) ==> bytes@ == crate::codec::enc_data(self.data_view()) && fd
                == self.fd_view(),
            r matches Err(e) ==> if self.data_view().kind is Some && msg_wf(
                self.data_view(),
                self.fd_view(),
            ) {
                e.kind == ErrorKind::SerializationError
            } else {
                e.kind == ErrorKind::InvalidKind
            },
    {
        let Message { data, fd } = self;
        let ok = match &data.kind {
            Some(k) => {
                let carries = k.carries_fd();
                (carries && fd.is_some()) || (!carries && fd.is_none())
            },
            None => false,
        };
        if !ok {
            return Err(Error::new(ErrorKind::InvalidKind));
        }
        let bytes = match crate::codec::encode_message_data(&data) {
            Ok(b) => b,
            Err(e) => {
                return Err(e);
            },
        };
        Ok((bytes, fd))
    }

    /// The compute half of receiving: decodes one datagram and attaches the
    /// descriptor extracted from its rights message, if any. The decoded
    /// kind and the presence of a descriptor must agree, and a received
    /// envelope must carry a kind; any disagreement is a protocol error.
    pub fn from_received(bytes: &[u8], fd: Option<i32>) -> (r: Result<Message, Error>)
        ensures
            r is Ok <==> (crate::codec::spec_decode(bytes@) matches Some(d) && d.kind is Some
                && msg_wf(d, fd)),
            r matches Ok(m) ==> crate::codec::spec_decode(bytes@) == Some(m.data_view())
                && m.fd_view() == fd && m.wf(),
            r matches Err(e) ==> e.kind == ErrorKind::ProtocolError,
    {
        let data = match crate::codec::decode_message_data(bytes) {
            Ok(d) => d,
            Err(e) => {
                return Err(e);
            },
        };
        match &data.kind {
            Some(k) => {
                let carries = k.carries_fd();
                if (carries && fd.is_some()) || (!carries && fd.is_none()) {
                    Ok(Message { data, fd })
                } else {
                    Err(Error::new(ErrorKind::ProtocolError))
                }
            },
            None => Err(Error::new(ErrorKind::ProtocolError)),
        }
    }

    /// The drop policy for a message still holding an unconsumed descriptor:
    /// the descriptor is closed exactly once, unless it is a standard stream
    /// or the sentinel. Reports which descriptor was closed.
    pub fn dispose(self) -> (r: Option<i32>)
        ensures
            (self.fd_view() is Some && closes_on_drop(self.fd_view().unwrap() as int)) ==> r
                == self.fd_view(),
            !(self.fd_view() is Some && closes_on_drop(self.fd_view().unwrap() as int)) ==> r
                is None,
    {
        match self.fd {
            Some(fd) => {
                if fd >= 3 {
                    let _ = sys::sys_close(fd);
                    Some(fd)
                } else {
                    None
                }
            },
            None => None,
        }
    }
}

/// What holds after one of the command-family accessors runs: when the held
/// kind is of the wanted family (`matched`), it is handed out and consumed,
/// the metadata and descriptor staying put; otherwise nothing changes.
pub open spec fn take_payload_post(
    pre: Message,
    post: Message,
    taken: Option<MessageKindView>,
    matched: bool,
) -> bool {
    if matched {
        &&& taken == pre.data_view().kind
        &&& post.data_view().kind is None
        &&& post.fd_view() == pre.fd_view()
        &&& post.data_view().meta == pre.data_view().meta
    } else {
        &&& taken is None
        &&& post == pre
    }
}

/// What holds after one of the endpoint-consuming accessors runs, asked for
/// kind `want`: on a match with an attached descriptor, both are consumed and
/// the descriptor is handed out; otherwise nothing changes and nothing is
/// returned.
pub open spec fn take_end_post(
    pre: Message,
    post: Message,
    want: MessageKindView,
    taken: Option<i32>,
) -> bool {
    if pre.data_view().kind == Some(want) && pre.fd_view() is Some {
        &&& taken == pre.fd_view()
        &&& post.data_view().kind is None
        &&& post.fd_view() is None
        &&& post.data_view().meta == pre.data_view().meta
    } else {
        &&& taken is None
        &&& post == pre
    }
}

} // verus!
