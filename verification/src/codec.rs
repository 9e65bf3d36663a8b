//! The wire format of the internal control channels: one datagram per
//! message, holding a binary serialization of the envelope. Every field is
//! little-endian; strings travel as a length-prefixed UTF-8 byte run; each
//! tagged union opens with one tag byte.

use vstd::bytes::{
    lemma_auto_spec_u32_to_from_le_bytes, spec_u32_from_le_bytes, spec_u32_to_le_bytes,
    u32_from_le_bytes, u32_to_le_bytes,
};
use vstd::prelude::*;
use vstd::slice::{slice_subrange, slice_to_vec};
use vstd::string::StrSliceExecFns;
use vstd::utf8::{
    decode_utf8, encode_utf8, encode_utf8_decode_utf8, encode_utf8_valid_utf8, valid_utf8,
};

use crate::error::{Error, ErrorKind};
use crate::msg::{MessageData, MessageDataView, MessageKind, MessageKindView, Metadata, MetadataView};
use crate::procs::leader::{
    Command, CommandResponse, CommandResponseView, CommandView, Target, TargetView,
};
use crate::procs::supervisor::Status;

verus! {

// ---------------------------------------------------------------------------
// Specification of the encoding
// ---------------------------------------------------------------------------
pub open spec fn enc_u32(x: u32) -> Seq<u8> {
    spec_u32_to_le_bytes(x)
}

pub open spec fn enc_i32(x: i32) -> Seq<u8> {
    enc_u32(x as u32)
}

/// A string is encodable when its UTF-8 byte run fits the u32 length prefix.
pub open spec fn str_encodable(s: Seq<char>) -> bool {
    encode_utf8(s).len() <= u32::MAX
}

pub open spec fn enc_str(s: Seq<char>) -> Seq<u8> {
    enc_u32(encode_utf8(s).len() as u32) + encode_utf8(s)
}

pub open spec fn enc_opt_str(s: Option<Seq<char>>) -> Seq<u8> {
    match s {
        None => seq![0u8],
        Some(cs) => seq![1u8] + enc_str(cs),
    }
}

pub open spec fn enc_opt_i32(x: Option<i32>) -> Seq<u8> {
    match x {
        None => seq![0u8],
        Some(v) => seq![1u8] + enc_i32(v),
    }
}

pub open spec fn enc_target(t: TargetView) -> Seq<u8> {
    match t {
        TargetView::Name(s) => seq![0u8] + enc_str(s),
        TargetView::Pid(p) => seq![1u8] + enc_u32(p),
    }
}

pub open spec fn enc_command(c: CommandView) -> Seq<u8> {
    match c {
        CommandView::Init(t) => seq![0u8] + enc_target(t),
        CommandView::Start(t) => seq![1u8] + enc_target(t),
        CommandView::Restart(t) => seq![2u8] + enc_target(t),
        CommandView::Stop(t) => seq![3u8] + enc_target(t),
        CommandView::Status(t) => seq![4u8] + enc_target(t),
        CommandView::List => seq![5u8],
    }
}

pub open spec fn enc_status(s: Status) -> Seq<u8> {
    match s {
        Status::Starting => seq![0u8],
        Status::Running => seq![1u8],
        Status::Exited(c) => seq![2u8] + enc_i32(c),
        Status::Crashed(sg) => seq![3u8] + enc_i32(sg),
        Status::Restarting => seq![4u8],
        Status::Stopped => seq![5u8],
    }
}

pub open spec fn enc_response(r: CommandResponseView) -> Seq<u8> {
    match r {
        CommandResponseView::ListItem { name, id, status } => seq![0u8] + enc_str(name) + enc_u32(
            id,
        ) + enc_status(status),
    }
}

pub open spec fn enc_kind(k: MessageKindView) -> Seq<u8> {
    match k {
        MessageKindView::ReadPipeEnd => seq![0u8],
        MessageKindView::WritePipeEnd => seq![1u8],
        MessageKindView::ReadCtlEnd => seq![2u8],
        MessageKindView::WriteCtlEnd => seq![3u8],
        MessageKindView::Command(c) => seq![4u8] + enc_command(c),
        MessageKindView::CommandResponse(r) => seq![5u8] + enc_response(r),
    }
}

pub open spec fn enc_opt_kind(k: Option<MessageKindView>) -> Seq<u8> {
    match k {
        None => seq![0u8],
        Some(kk) => seq![1u8] + enc_kind(kk),
    }
}

pub open spec fn enc_meta(m: MetadataView) -> Seq<u8> {
    enc_opt_str(m.proc_name) + enc_opt_i32(m.pid) + enc_i32(m.source_pid) + enc_opt_i32(
        m.target_pid,
    )
}

pub open spec fn enc_data(d: MessageDataView) -> Seq<u8> {
    enc_meta(d.meta) + enc_opt_kind(d.kind)
}

pub open spec fn opt_str_encodable(s: Option<Seq<char>>) -> bool {
    match s {
        None => true,
        Some(cs) => str_encodable(cs),
    }
}

pub open spec fn target_encodable(t: TargetView) -> bool {
    match t {
        TargetView::Name(s) => str_encodable(s),
        TargetView::Pid(_) => true,
    }
}

pub open spec fn command_encodable(c: CommandView) -> bool {
    match c {
        CommandView::Init(t) => target_encodable(t),
        CommandView::Start(t) => target_encodable(t),
        CommandView::Restart(t) => target_encodable(t),
        CommandView::Stop(t) => target_encodable(t),
        CommandView::Status(t) => target_encodable(t),
        CommandView::List => true,
    }
}

pub open spec fn response_encodable(r: CommandResponseView) -> bool {
    match r {
        CommandResponseView::ListItem { name, id: _, status: _ } => str_encodable(name),
    }
}

pub open spec fn kind_encodable(k: MessageKindView) -> bool {
    match k {
        MessageKindView::Command(c) => command_encodable(c),
        MessageKindView::CommandResponse(r) => response_encodable(r),
        _ => true,
    }
}

pub open spec fn opt_kind_encodable(k: Option<MessageKindView>) -> bool {
    match k {
        None => true,
        Some(kk) => kind_encodable(kk),
    }
}

pub open spec fn meta_encodable(m: MetadataView) -> bool {
    opt_str_encodable(m.proc_name)
}

/// An envelope is encodable when every string in it fits its length prefix;
/// everything else is always encodable.
pub open spec fn data_encodable(d: MessageDataView) -> bool {
    meta_encodable(d.meta) && opt_kind_encodable(d.kind)
}

// ---------------------------------------------------------------------------
// Specification of the decoding: each parser consumes a prefix and hands the
// remainder on
// ---------------------------------------------------------------------------
pub open spec fn parse_u8(s: Seq<u8>) -> Option<(u8, Seq<u8>)> {
    if s.len() >= 1 {
        Some((s[0], s.skip(1)))
    } else {
        None
    }
}

pub open spec fn parse_u32(s: Seq<u8>) -> Option<(u32, Seq<u8>)> {
    if s.len() >= 4 {
        Some((spec_u32_from_le_bytes(s.take(4)), s.skip(4)))
    } else {
        None
    }
}

pub open spec fn parse_i32(s: Seq<u8>) -> Option<(i32, Seq<u8>)> {
    match parse_u32(s) {
        Some((x, rest)) => Some(((x as i32), rest)),
        None => None,
    }
}

pub open spec fn parse_str(s: Seq<u8>) -> Option<(Seq<char>, Seq<u8>)> {
    match parse_u32(s) {
        Some((n, rest)) => if rest.len() >= n && valid_utf8(rest.take(n as int)) {
            Some((decode_utf8(rest.take(n as int)), rest.skip(n as int)))
        } else {
            None
        },
        None => None,
    }
}

pub open spec fn parse_opt_str(s: Seq<u8>) -> Option<(Option<Seq<char>>, Seq<u8>)> {
    match parse_u8(s) {
        Some((tag, rest)) => if tag == 0 {
            Some((None, rest))
        } else if tag == 1 {
            match parse_str(rest) {
                Some((v, rest2)) => Some((Some(v), rest2)),
                None => None,
            }
        } else {
            None
        },
        None => None,
    }
}

pub open spec fn parse_opt_i32(s: Seq<u8>) -> Option<(Option<i32>, Seq<u8>)> {
    match parse_u8(s) {
        Some((tag, rest)) => if tag == 0 {
            Some((None, rest))
        } else if tag == 1 {
            match parse_i32(rest) {
                Some((v, rest2)) => Some((Some(v), rest2)),
                None => None,
            }
        } else {
            None
        },
        None => None,
    }
}

pub open spec fn parse_target(s: Seq<u8>) -> Option<(TargetView, Seq<u8>)> {
    match parse_u8(s) {
        Some((tag, rest)) => if tag == 0 {
            match parse_str(rest) {
                Some((v, rest2)) => Some((TargetView::Name(v), rest2)),
                None => None,
            }
        } else if tag == 1 {
            match parse_u32(rest) {
                Some((v, rest2)) => Some((TargetView::Pid(v), rest2)),
                None => None,
            }
        } else {
            None
        },
        None => None,
    }
}

pub open spec fn parse_command(s: Seq<u8>) -> Option<(CommandView, Seq<u8>)> {
    match parse_u8(s) {
        Some((tag, rest)) => if tag == 5 {
            Some((CommandView::List, rest))
        } else if tag <= 4 {
            match parse_target(rest) {
                Some((t, rest2)) => if tag == 0 {
                    Some((CommandView::Init(t), rest2))
                } else if tag == 1 {
                    Some((CommandView::Start(t), rest2))
                } else if tag == 2 {
                    Some((CommandView::Restart(t), rest2))
                } else if tag == 3 {
                    Some((CommandView::Stop(t), rest2))
                } else {
                    Some((CommandView::Status(t), rest2))
                },
                None => None,
            }
        } else {
            None
        },
        None => None,
    }
}

pub open spec fn parse_status(s: Seq<u8>) -> Option<(Status, Seq<u8>)> {
    match parse_u8(s) {
        Some((tag, rest)) => if tag == 0 {
            Some((Status::Starting, rest))
        } else if tag == 1 {
            Some((Status::Running, rest))
        } else if tag == 2 {
            match parse_i32(rest) {
                Some((v, rest2)) => Some((Status::Exited(v), rest2)),
                None => None,
            }
        } else if tag == 3 {
            match parse_i32(rest) {
                Some((v, rest2)) => Some((Status::Crashed(v), rest2)),
                None => None,
            }
        } else if tag == 4 {
            Some((Status::Restarting, rest))
        } else if tag == 5 {
            Some((Status::Stopped, rest))
        } else {
            None
        },
        None => None,
    }
}

pub open spec fn parse_response(s: Seq<u8>) -> Option<(CommandResponseView, Seq<u8>)> {
    match parse_u8(s) {
        Some((tag, rest)) => if tag == 0 {
            match parse_str(rest) {
                Some((name, rest2)) => match parse_u32(rest2) {
                    Some((id, rest3)) => match parse_status(rest3) {
                        Some((status, rest4)) => Some(
                            (CommandResponseView::ListItem { name, id, status }, rest4),
                        ),
                        None => None,
                    },
                    None => None,
                },
                None => None,
            }
        } else {
            None
        },
        None => None,
    }
}

pub open spec fn parse_kind(s: Seq<u8>) -> Option<(MessageKindView, Seq<u8>)> {
    match parse_u8(s) {
        Some((tag, rest)) => if tag == 0 {
            Some((MessageKindView::ReadPipeEnd, rest))
        } else if tag == 1 {
            Some((MessageKindView::WritePipeEnd, rest))
        } else if tag == 2 {
            Some((MessageKindView::ReadCtlEnd, rest))
        } else if tag == 3 {
            Some((MessageKindView::WriteCtlEnd, rest))
        } else if tag == 4 {
            match parse_command(rest) {
                Some((c, rest2)) => Some((MessageKindView::Command(c), rest2)),
                None => None,
            }
        } else if tag == 5 {
            match parse_response(rest) {
                Some((r, rest2)) => Some((MessageKindView::CommandResponse(r), rest2)),
                None => None,
            }
        } else {
            None
        },
        None => None,
    }
}

pub open spec fn parse_opt_kind(s: Seq<u8>) -> Option<(Option<MessageKindView>, Seq<u8>)> {
    match parse_u8(s) {
        Some((tag, rest)) => if tag == 0 {
            Some((None, rest))
        } else if tag == 1 {
            match parse_kind(rest) {
                Some((v, rest2)) => Some((Some(v), rest2)),
                None => None,
            }
        } else {
            None
        },
        None => None,
    }
}

pub open spec fn parse_meta(s: Seq<u8>) -> Option<(MetadataView, Seq<u8>)> {
    match parse_opt_str(s) {
        Some((proc_name, r1)) => match parse_opt_i32(r1) {
            Some((pid, r2)) => match parse_i32(r2) {
                Some((source_pid, r3)) => match parse_opt_i32(r3) {
                    Some((target_pid, r4)) => Some(
                        (MetadataView { proc_name, pid, source_pid, target_pid }, r4),
                    ),
                    None => None,
                },
                None => None,
            },
            None => None,
        },
        None => None,
    }
}

/// The whole-envelope decoder: the envelope must fill its datagram exactly.
pub open spec fn spec_decode(s: Seq<u8>) -> Option<MessageDataView> {
    match parse_meta(s) {
        Some((meta, r1)) => match parse_opt_kind(r1) {
            Some((kind, r2)) => if r2.len() == 0 {
                Some(MessageDataView { meta, kind })
            } else {
                None
            },
            None => None,
        },
        None => None,
    }
}

// ---------------------------------------------------------------------------
// Round trip: decoding an encoding yields the envelope back
// ---------------------------------------------------------------------------
proof fn lemma_parse_u8(x: u8, rest: Seq<u8>)
    ensures
        parse_u8(seq![x] + rest) == Some((x, rest)),
{
    let s = seq![x] + rest;
    assert(s[0] == x);
    assert(s.skip(1) =~= rest);
}

proof fn lemma_parse_u32(x: u32, rest: Seq<u8>)
    ensures
        parse_u32(enc_u32(x) + rest) == Some((x, rest)),
{
    lemma_auto_spec_u32_to_from_le_bytes();
    let s = enc_u32(x) + rest;
    assert(s.take(4) =~= enc_u32(x));
    assert(s.skip(4) =~= rest);
}

proof fn lemma_parse_i32(x: i32, rest: Seq<u8>)
    ensures
        parse_i32(enc_i32(x) + rest) == Some((x, rest)),
{
    lemma_parse_u32(x as u32, rest);
    assert(((x as u32) as i32) == x) by (bit_vector);
}

proof fn lemma_parse_str(cs: Seq<char>, rest: Seq<u8>)
    requires
        str_encodable(cs),
    ensures
        parse_str(enc_str(cs) + rest) == Some((cs, rest)),
{
    let bytes = encode_utf8(cs);
    let n = bytes.len() as u32;
    let s = enc_str(cs) + rest;
    assert(s =~= enc_u32(n) + (bytes + rest));
    lemma_parse_u32(n, bytes + rest);
    let r = (bytes + rest);
    assert(r.take(n as int) =~= bytes);
    assert(r.skip(n as int) =~= rest);
    encode_utf8_valid_utf8(cs);
    encode_utf8_decode_utf8(cs);
}

proof fn lemma_parse_opt_str(v: Option<Seq<char>>, rest: Seq<u8>)
    requires
        opt_str_encodable(v),
    ensures
        parse_opt_str(enc_opt_str(v) + rest) == Some((v, rest)),
{
    match v {
        None => {
            lemma_parse_u8(0u8, rest);
        },
        Some(cs) => {
            assert(enc_opt_str(v) + rest =~= seq![1u8] + (enc_str(cs) + rest));
            lemma_parse_u8(1u8, enc_str(cs) + rest);
            lemma_parse_str(cs, rest);
        },
    }
}

proof fn lemma_parse_opt_i32(v: Option<i32>, rest: Seq<u8>)
    ensures
        parse_opt_i32(enc_opt_i32(v) + rest) == Some((v, rest)),
{
    match v {
        None => {
            lemma_parse_u8(0u8, rest);
        },
        Some(x) => {
            assert(enc_opt_i32(v) + rest =~= seq![1u8] + (enc_i32(x) + rest));
            lemma_parse_u8(1u8, enc_i32(x) + rest);
            lemma_parse_i32(x, rest);
        },
    }
}

proof fn lemma_parse_target(t: TargetView, rest: Seq<u8>)
    requires
        target_encodable(t),
    ensures
        parse_target(enc_target(t) + rest) == Some((t, rest)),
{
    match t {
        TargetView::Name(cs) => {
            assert(enc_target(t) + rest =~= seq![0u8] + (enc_str(cs) + rest));
            lemma_parse_u8(0u8, enc_str(cs) + rest);
            lemma_parse_str(cs, rest);
        },
        TargetView::Pid(p) => {
            assert(enc_target(t) + rest =~= seq![1u8] + (enc_u32(p) + rest));
            lemma_parse_u8(1u8, enc_u32(p) + rest);
            lemma_parse_u32(p, rest);
        },
    }
}

proof fn lemma_parse_command(c: CommandView, rest: Seq<u8>)
    requires
        command_encodable(c),
    ensures
        parse_command(enc_command(c) + rest) == Some((c, rest)),
{
    match c {
        CommandView::Init(t) => {
            assert(enc_command(c) + rest =~= seq![0u8] + (enc_target(t) + rest));
            lemma_parse_u8(0u8, enc_target(t) + rest);
            lemma_parse_target(t, rest);
        },
        CommandView::Start(t) => {
            assert(enc_command(c) + rest =~= seq![1u8] + (enc_target(t) + rest));
            lemma_parse_u8(1u8, enc_target(t) + rest);
            lemma_parse_target(t, rest);
        },
        CommandView::Restart(t) => {
            assert(enc_command(c) + rest =~= seq![2u8] + (enc_target(t) + rest));
            lemma_parse_u8(2u8, enc_target(t) + rest);
            lemma_parse_target(t, rest);
        },
        CommandView::Stop(t) => {
            assert(enc_command(c) + rest =~= seq![3u8] + (enc_target(t) + rest));
            lemma_parse_u8(3u8, enc_target(t) + rest);
            lemma_parse_target(t, rest);
        },
        CommandView::Status(t) => {
            assert(enc_command(c) + rest =~= seq![4u8] + (enc_target(t) + rest));
            lemma_parse_u8(4u8, enc_target(t) + rest);
            lemma_parse_target(t, rest);
        },
        CommandView::List => {
            lemma_parse_u8(5u8, rest);
        },
    }
}

proof fn lemma_parse_status(st: Status, rest: Seq<u8>)
    ensures
        parse_status(enc_status(st) + rest) == Some((st, rest)),
{
    match st {
        Status::Starting => {
            lemma_parse_u8(0u8, rest);
        },
        Status::Running => {
            lemma_parse_u8(1u8, rest);
        },
        Status::Exited(v) => {
            assert(enc_status(st) + rest =~= seq![2u8] + (enc_i32(v) + rest));
            lemma_parse_u8(2u8, enc_i32(v) + rest);
            lemma_parse_i32(v, rest);
        },
        Status::Crashed(v) => {
            assert(enc_status(st) + rest =~= seq![3u8] + (enc_i32(v) + rest));
            lemma_parse_u8(3u8, enc_i32(v) + rest);
            lemma_parse_i32(v, rest);
        },
        Status::Restarting => {
            lemma_parse_u8(4u8, rest);
        },
        Status::Stopped => {
            lemma_parse_u8(5u8, rest);
        },
    }
}

proof fn lemma_parse_response(r: CommandResponseView, rest: Seq<u8>)
    requires
        response_encodable(r),
    ensures
        parse_response(enc_response(r) + rest) == Some((r, rest)),
{
    match r {
        CommandResponseView::ListItem { name, id, status } => {
            let tail1 = enc_str(name) + (enc_u32(id) + (enc_status(status) + rest));
            assert(enc_response(r) + rest =~= seq![0u8] + tail1);
            lemma_parse_u8(0u8, tail1);
            lemma_parse_str(name, enc_u32(id) + (enc_status(status) + rest));
            lemma_parse_u32(id, enc_status(status) + rest);
            lemma_parse_status(status, rest);
        },
    }
}

proof fn lemma_parse_kind(k: MessageKindView, rest: Seq<u8>)
    requires
        kind_encodable(k),
    ensures
        parse_kind(enc_kind(k) + rest) == Some((k, rest)),
{
    match k {
        MessageKindView::ReadPipeEnd => {
            lemma_parse_u8(0u8, rest);
        },
        MessageKindView::WritePipeEnd => {
            lemma_parse_u8(1u8, rest);
        },
        MessageKindView::ReadCtlEnd => {
            lemma_parse_u8(2u8, rest);
        },
        MessageKindView::WriteCtlEnd => {
            lemma_parse_u8(3u8, rest);
        },
        MessageKindView::Command(c) => {
            assert(enc_kind(k) + rest =~= seq![4u8] + (enc_command(c) + rest));
            lemma_parse_u8(4u8, enc_command(c) + rest);
            lemma_parse_command(c, rest);
        },
        MessageKindView::CommandResponse(r) => {
            assert(enc_kind(k) + rest =~= seq![5u8] + (enc_response(r) + rest));
            lemma_parse_u8(5u8, enc_response(r) + rest);
            lemma_parse_response(r, rest);
        },
    }
}

proof fn lemma_parse_opt_kind(v: Option<MessageKindView>, rest: Seq<u8>)
    requires
        opt_kind_encodable(v),
    ensures
        parse_opt_kind(enc_opt_kind(v) + rest) == Some((v, rest)),
{
    match v {
        None => {
            lemma_parse_u8(0u8, rest);
        },
        Some(k) => {
            assert(enc_opt_kind(v) + rest =~= seq![1u8] + (enc_kind(k) + rest));
            lemma_parse_u8(1u8, enc_kind(k) + rest);
            lemma_parse_kind(k, rest);
        },
    }
}

proof fn lemma_parse_meta(m: MetadataView, rest: Seq<u8>)
    requires
        meta_encodable(m),
    ensures
        parse_meta(enc_meta(m) + rest) == Some((m, rest)),
{
    let a = enc_opt_str(m.proc_name);
    let b = enc_opt_i32(m.pid);
    let c = enc_i32(m.source_pid);
    let d = enc_opt_i32(m.target_pid);
    assert(enc_meta(m) + rest =~= a + (b + (c + (d + rest))));
    lemma_parse_opt_str(m.proc_name, b + (c + (d + rest)));
    lemma_parse_opt_i32(m.pid, c + (d + rest));
    lemma_parse_i32(m.source_pid, d + rest);
    lemma_parse_opt_i32(m.target_pid, rest);
}

/// Round trip: decoding an encoded envelope yields the envelope back, for
/// every envelope whose strings fit their length prefixes.
pub proof fn lemma_codec_round_trip(d: MessageDataView)
    requires
        data_encodable(d),
    ensures
        spec_decode(enc_data(d)) == Some(d),
{
    let rest = Seq::<u8>::empty();
    assert(enc_data(d) =~= enc_meta(d.meta) + (enc_opt_kind(d.kind) + rest));
    lemma_parse_meta(d.meta, enc_opt_kind(d.kind) + rest);
    lemma_parse_opt_kind(d.kind, rest);
}

// ---------------------------------------------------------------------------
// Unique encoding: whatever decodes was exactly the encoding of its value
// ---------------------------------------------------------------------------
proof fn lemma_parse_u8_sound(s: Seq<u8>)
    requires
        parse_u8(s) is Some,
    ensures
        ({
            let (x, rest) = parse_u8(s).unwrap();
            s == seq![x] + rest
        }),
{
    let (x, rest) = parse_u8(s).unwrap();
    assert(s =~= seq![x] + rest);
}

proof fn lemma_parse_u32_sound(s: Seq<u8>)
    requires
        parse_u32(s) is Some,
    ensures
        ({
            let (x, rest) = parse_u32(s).unwrap();
            s == enc_u32(x) + rest
        }),
{
    lemma_auto_spec_u32_to_from_le_bytes();
    let (x, rest) = parse_u32(s).unwrap();
    assert(enc_u32(x) == s.take(4));
    assert(s =~= s.take(4) + s.skip(4));
}

proof fn lemma_parse_i32_sound(s: Seq<u8>)
    requires
        parse_i32(s) is Some,
    ensures
        ({
            let (x, rest) = parse_i32(s).unwrap();
            s == enc_i32(x) + rest
        }),
{
    lemma_parse_u32_sound(s);
    let (u, _rest) = parse_u32(s).unwrap();
    assert(((u as i32) as u32) == u) by (bit_vector);
}

proof fn lemma_parse_str_sound(s: Seq<u8>)
    requires
        parse_str(s) is Some,
    ensures
        ({
            let (cs, rest) = parse_str(s).unwrap();
            str_encodable(cs) && s == enc_str(cs) + rest
        }),
{
    lemma_parse_u32_sound(s);
    let (n, r1) = parse_u32(s).unwrap();
    let body = r1.take(n as int);
    let (cs, rest) = parse_str(s).unwrap();
    vstd::utf8::decode_utf8_encode_utf8(body);
    assert(encode_utf8(cs) == body);
    assert(r1 =~= body + rest);
    assert(enc_str(cs) =~= enc_u32(n) + body);
    assert(s =~= enc_str(cs) + rest);
}

proof fn lemma_parse_opt_str_sound(s: Seq<u8>)
    requires
        parse_opt_str(s) is Some,
    ensures
        ({
            let (v, rest) = parse_opt_str(s).unwrap();
            opt_str_encodable(v) && s == enc_opt_str(v) + rest
        }),
{
    lemma_parse_u8_sound(s);
    let (tag, r1) = parse_u8(s).unwrap();
    if tag == 0 {
        assert(s =~= enc_opt_str(None) + r1);
    } else {
        lemma_parse_str_sound(r1);
        let (cs, rest) = parse_str(r1).unwrap();
        assert(s =~= enc_opt_str(Some(cs)) + rest);
    }
}

proof fn lemma_parse_opt_i32_sound(s: Seq<u8>)
    requires
        parse_opt_i32(s) is Some,
    ensures
        ({
            let (v, rest) = parse_opt_i32(s).unwrap();
            s == enc_opt_i32(v) + rest
        }),
{
    lemma_parse_u8_sound(s);
    let (tag, r1) = parse_u8(s).unwrap();
    if tag == 0 {
        assert(s =~= enc_opt_i32(None) + r1);
    } else {
        lemma_parse_i32_sound(r1);
        let (x, rest) = parse_i32(r1).unwrap();
        assert(s =~= enc_opt_i32(Some(x)) + rest);
    }
}

proof fn lemma_parse_target_sound(s: Seq<u8>)
    requires
        parse_target(s) is Some,
    ensures
        ({
            let (t, rest) = parse_target(s).unwrap();
            target_encodable(t) && s == enc_target(t) + rest
        }),
{
    lemma_parse_u8_sound(s);
    let (tag, r1) = parse_u8(s).unwrap();
    if tag == 0 {
        lemma_parse_str_sound(r1);
        let (cs, rest) = parse_str(r1).unwrap();
        assert(s =~= enc_target(TargetView::Name(cs)) + rest);
    } else {
        lemma_parse_u32_sound(r1);
        let (p, rest) = parse_u32(r1).unwrap();
        assert(s =~= enc_target(TargetView::Pid(p)) + rest);
    }
}

proof fn lemma_parse_command_sound(s: Seq<u8>)
    requires
        parse_command(s) is Some,
    ensures
        ({
            let (c, rest) = parse_command(s).unwrap();
            command_encodable(c) && s == enc_command(c) + rest
        }),
{
    lemma_parse_u8_sound(s);
    let (tag, r1) = parse_u8(s).unwrap();
    if tag == 5 {
        assert(s =~= enc_command(CommandView::List) + r1);
    } else {
        lemma_parse_target_sound(r1);
        let (t, rest) = parse_target(r1).unwrap();
        let (c, _rest2) = parse_command(s).unwrap();
        assert(s =~= seq![tag] + (enc_target(t) + rest));
        assert(enc_command(c) + rest =~= seq![tag] + (enc_target(t) + rest));
    }
}

proof fn lemma_parse_status_sound(s: Seq<u8>)
    requires
        parse_status(s) is Some,
    ensures
        ({
            let (st, rest) = parse_status(s).unwrap();
            s == enc_status(st) + rest
        }),
{
    lemma_parse_u8_sound(s);
    let (tag, r1) = parse_u8(s).unwrap();
    if tag == 2 || tag == 3 {
        lemma_parse_i32_sound(r1);
        let (x, rest) = parse_i32(r1).unwrap();
        let (st, _rest2) = parse_status(s).unwrap();
        assert(s =~= seq![tag] + (enc_i32(x) + rest));
        assert(enc_status(st) + rest =~= seq![tag] + (enc_i32(x) + rest));
    } else {
        let (st, rest) = parse_status(s).unwrap();
        assert(s =~= enc_status(st) + rest);
    }
}

proof fn lemma_parse_response_sound(s: Seq<u8>)
    requires
        parse_response(s) is Some,
    ensures
        ({
            let (r, rest) = parse_response(s).unwrap();
            response_encodable(r) && s == enc_response(r) + rest
        }),
{
    lemma_parse_u8_sound(s);
    let (_tag, r1) = parse_u8(s).unwrap();
    lemma_parse_str_sound(r1);
    let (name, r2) = parse_str(r1).unwrap();
    lemma_parse_u32_sound(r2);
    let (id, r3) = parse_u32(r2).unwrap();
    lemma_parse_status_sound(r3);
    let (status, rest) = parse_status(r3).unwrap();
    let v = CommandResponseView::ListItem { name, id, status };
    assert(s =~= enc_response(v) + rest);
}

proof fn lemma_parse_kind_sound(s: Seq<u8>)
    requires
        parse_kind(s) is Some,
    ensures
        ({
            let (k, rest) = parse_kind(s).unwrap();
            kind_encodable(k) && s == enc_kind(k) + rest
        }),
{
    lemma_parse_u8_sound(s);
    let (tag, r1) = parse_u8(s).unwrap();
    if tag == 4 {
        lemma_parse_command_sound(r1);
        let (c, rest) = parse_command(r1).unwrap();
        assert(s =~= enc_kind(MessageKindView::Command(c)) + rest);
    } else if tag == 5 {
        lemma_parse_response_sound(r1);
        let (r, rest) = parse_response(r1).unwrap();
        assert(s =~= enc_kind(MessageKindView::CommandResponse(r)) + rest);
    } else {
        let (k, rest) = parse_kind(s).unwrap();
        assert(s =~= enc_kind(k) + rest);
    }
}

proof fn lemma_parse_opt_kind_sound(s: Seq<u8>)
    requires
        parse_opt_kind(s) is Some,
    ensures
        ({
            let (v, rest) = parse_opt_kind(s).unwrap();
            opt_kind_encodable(v) && s == enc_opt_kind(v) + rest
        }),
{
    lemma_parse_u8_sound(s);
    let (tag, r1) = parse_u8(s).unwrap();
    if tag == 0 {
        assert(s =~= enc_opt_kind(None) + r1);
    } else {
        lemma_parse_kind_sound(r1);
        let (k, rest) = parse_kind(r1).unwrap();
        assert(s =~= enc_opt_kind(Some(k)) + rest);
    }
}

#[verifier::rlimit(50)]
proof fn lemma_parse_meta_sound(s: Seq<u8>)
    requires
        parse_meta(s) is Some,
    ensures
        ({
            let (m, rest) = parse_meta(s).unwrap();
            meta_encodable(m) && s == enc_meta(m) + rest
        }),
{
    lemma_parse_opt_str_sound(s);
    let (proc_name, r1) = parse_opt_str(s).unwrap();
    lemma_parse_opt_i32_sound(r1);
    let (pid, r2) = parse_opt_i32(r1).unwrap();
    lemma_parse_i32_sound(r2);
    let (source_pid, r3) = parse_i32(r2).unwrap();
    lemma_parse_opt_i32_sound(r3);
    let (target_pid, rest) = parse_opt_i32(r3).unwrap();
    let m = MetadataView { proc_name, pid, source_pid, target_pid };
    assert(r2 =~= enc_i32(source_pid) + (enc_opt_i32(target_pid) + rest));
    assert(r1 =~= enc_opt_i32(pid) + (enc_i32(source_pid) + (enc_opt_i32(target_pid) + rest)));
    assert(s =~= enc_opt_str(proc_name) + (enc_opt_i32(pid) + (enc_i32(source_pid) + (enc_opt_i32(
        target_pid,
    ) + rest))));
    assert(s =~= enc_meta(m) + rest);
}

/// The encoding is canonical: any byte string that decodes at all is
/// exactly the encoding of the envelope it decodes to, so no envelope has
/// two wire forms and no wire form two readings.
pub proof fn lemma_codec_unique_encoding(bytes: Seq<u8>)
    requires
        spec_decode(bytes) is Some,
    ensures
        data_encodable(spec_decode(bytes).unwrap()),
        enc_data(spec_decode(bytes).unwrap()) == bytes,
{
    lemma_parse_meta_sound(bytes);
    let (meta, r1) = parse_meta(bytes).unwrap();
    lemma_parse_opt_kind_sound(r1);
    let (kind, r2) = parse_opt_kind(r1).unwrap();
    assert(r2.len() == 0);
    assert(enc_opt_kind(kind) + r2 =~= enc_opt_kind(kind));
    assert(enc_data(MessageDataView { meta, kind }) =~= bytes);
}

// ---------------------------------------------------------------------------
// Executable encoder
// ---------------------------------------------------------------------------
/// The view of an optional owned string.
pub open spec fn opt_string_view(v: Option<String>) -> Option<Seq<char>> {
    match v {
        Some(s) => Some(s@),
        None => None,
    }
}

/// The view of an optional kind.
pub open spec fn opt_kind_view(v: Option<MessageKind>) -> Option<MessageKindView> {
    match v {
        Some(k) => Some(k@),
        None => None,
    }
}

fn e_u32(out: &mut Vec<u8>, x: u32)
    ensures
        final(out)@ == old(out)@ + enc_u32(x),
{
    let mut b = u32_to_le_bytes(x);
    out.append(&mut b);
}

fn e_i32(out: &mut Vec<u8>, x: i32)
    ensures
        final(out)@ == old(out)@ + enc_i32(x),
{
    e_u32(out, #[verifier::truncate] (x as u32));
}

fn e_str(out: &mut Vec<u8>, s: &String)
    requires
        str_encodable(s@),
    ensures
        final(out)@ == old(out)@ + enc_str(s@),
{
    let mut b = s.as_str().as_bytes_vec();
    let n = b.len();
    e_u32(out, #[verifier::truncate] (n as u32));
    out.append(&mut b);
    proof {
        assert(final(out)@ =~= old(out)@ + enc_str(s@));
    }
}

fn e_opt_str(out: &mut Vec<u8>, v: &Option<String>)
    requires
        opt_str_encodable(opt_string_view(*v)),
    ensures
        final(out)@ == old(out)@ + enc_opt_str(opt_string_view(*v)),
{
    match v {
        None => {
            out.push(0u8);
            proof {
                assert(final(out)@ =~= old(out)@ + enc_opt_str(opt_string_view(*v)));
            }
        },
        Some(s) => {
            out.push(1u8);
            e_str(out, s);
            proof {
                assert(final(out)@ =~= old(out)@ + enc_opt_str(opt_string_view(*v)));
            }
        },
    }
}

fn e_opt_i32(out: &mut Vec<u8>, v: &Option<i32>)
    ensures
        final(out)@ == old(out)@ + enc_opt_i32(*v),
{
    match v {
        None => {
            out.push(0u8);
            proof {
                assert(final(out)@ =~= old(out)@ + enc_opt_i32(*v));
            }
        },
        Some(x) => {
            out.push(1u8);
            e_i32(out, *x);
            proof {
                assert(final(out)@ =~= old(out)@ + enc_opt_i32(*v));
            }
        },
    }
}

fn e_target(out: &mut Vec<u8>, t: &Target)
    requires
        target_encodable(t@),
    ensures
        final(out)@ == old(out)@ + enc_target(t@),
{
    match t {
        Target::Name(s) => {
            out.push(0u8);
            e_str(out, s);
            proof {
                assert(final(out)@ =~= old(out)@ + enc_target(t@));
            }
        },
        Target::Pid(p) => {
            out.push(1u8);
            e_u32(out, *p);
            proof {
                assert(final(out)@ =~= old(out)@ + enc_target(t@));
            }
        },
    }
}

fn e_command(out: &mut Vec<u8>, c: &Command)
    requires
        command_encodable(c@),
    ensures
        final(out)@ == old(out)@ + enc_command(c@),
{
    match c {
        Command::Init(t) => {
            out.push(0u8);
            e_target(out, t);
        },
        Command::Start(t) => {
            out.push(1u8);
            e_target(out, t);
        },
        Command::Restart(t) => {
            out.push(2u8);
            e_target(out, t);
        },
        Command::Stop(t) => {
            out.push(3u8);
            e_target(out, t);
        },
        Command::Status(t) => {
            out.push(4u8);
            e_target(out, t);
        },
        Command::List => {
            out.push(5u8);
        },
    }
    proof {
        assert(final(out)@ =~= old(out)@ + enc_command(c@));
    }
}

fn e_status(out: &mut Vec<u8>, st: &Status)
    ensures
        final(out)@ == old(out)@ + enc_status(*st),
{
    match st {
        Status::Starting => {
            out.push(0u8);
        },
        Status::Running => {
            out.push(1u8);
        },
        Status::Exited(v) => {
            out.push(2u8);
            e_i32(out, *v);
        },
        Status::Crashed(v) => {
            out.push(3u8);
            e_i32(out, *v);
        },
        Status::Restarting => {
            out.push(4u8);
        },
        Status::Stopped => {
            out.push(5u8);
        },
    }
    proof {
        assert(final(out)@ =~= old(out)@ + enc_status(*st));
    }
}

fn e_response(out: &mut Vec<u8>, r: &CommandResponse)
    requires
        response_encodable(r@),
    ensures
        final(out)@ == old(out)@ + enc_response(r@),
{
    match r {
        CommandResponse::ListItem { name, id, status } => {
            out.push(0u8);
            e_str(out, name);
            e_u32(out, *id);
            e_status(out, status);
        },
    }
    proof {
        assert(final(out)@ =~= old(out)@ + enc_response(r@));
    }
}

fn e_kind(out: &mut Vec<u8>, k: &MessageKind)
    requires
        kind_encodable(k@),
    ensures
        final(out)@ == old(out)@ + enc_kind(k@),
{
    match k {
        MessageKind::ReadPipeEnd => {
            out.push(0u8);
        },
        MessageKind::WritePipeEnd => {
            out.push(1u8);
        },
        MessageKind::ReadCtlEnd => {
            out.push(2u8);
        },
        MessageKind::WriteCtlEnd => {
            out.push(3u8);
        },
        MessageKind::Command(c) => {
            out.push(4u8);
            e_command(out, c);
        },
        MessageKind::CommandResponse(r) => {
            out.push(5u8);
            e_response(out, r);
        },
    }
    proof {
        assert(final(out)@ =~= old(out)@ + enc_kind(k@));
    }
}

fn e_opt_kind(out: &mut Vec<u8>, v: &Option<MessageKind>)
    requires
        opt_kind_encodable(opt_kind_view(*v)),
    ensures
        final(out)@ == old(out)@ + enc_opt_kind(opt_kind_view(*v)),
{
    match v {
        None => {
            out.push(0u8);
        },
        Some(k) => {
            out.push(1u8);
            e_kind(out, k);
        },
    }
    proof {
        assert(final(out)@ =~= old(out)@ + enc_opt_kind(opt_kind_view(*v)));
    }
}

fn e_meta(out: &mut Vec<u8>, m: &Metadata)
    requires
        meta_encodable(m@),
    ensures
        final(out)@ == old(out)@ + enc_meta(m@),
{
    e_opt_str(out, &m.proc_name);
    e_opt_i32(out, &m.pid);
    e_i32(out, m.source_pid);
    e_opt_i32(out, &m.target_pid);
    proof {
        assert(final(out)@ =~= old(out)@ + enc_meta(m@));
    }
}

fn check_str(s: &String) -> (b: bool)
    ensures
        b == str_encodable(s@),
{
    let bytes = s.as_str().as_bytes_vec();
    bytes.len() <= u32::MAX as usize
}

fn check_target(t: &Target) -> (b: bool)
    ensures
        b == target_encodable(t@),
{
    match t {
        Target::Name(s) => check_str(s),
        Target::Pid(_) => true,
    }
}

fn check_command(c: &Command) -> (b: bool)
    ensures
        b == command_encodable(c@),
{
    match c {
        Command::Init(t) => check_target(t),
        Command::Start(t) => check_target(t),
        Command::Restart(t) => check_target(t),
        Command::Stop(t) => check_target(t),
        Command::Status(t) => check_target(t),
        Command::List => true,
    }
}

fn check_response(r: &CommandResponse) -> (b: bool)
    ensures
        b == response_encodable(r@),
{
    match r {
        CommandResponse::ListItem { name, id: _, status: _ } => check_str(name),
    }
}

fn check_kind(k: &MessageKind) -> (b: bool)
    ensures
        b == kind_encodable(k@),
{
    match k {
        MessageKind::Command(c) => check_command(c),
        MessageKind::CommandResponse(r) => check_response(r),
        _ => true,
    }
}

fn check_data(d: &MessageData) -> (b: bool)
    ensures
        b == data_encodable(d@),
{
    let meta_ok = match &d.meta.proc_name {
        Some(s) => check_str(s),
        None => true,
    };
    if !meta_ok {
        return false;
    }
    match &d.kind {
        Some(k) => check_kind(k),
        None => true,
    }
}

/// Encodes an envelope into the bytes of one datagram. Succeeds exactly when
/// every string in the envelope fits its length prefix; fails with a
/// serialization error otherwise.
pub fn encode_message_data(d: &MessageData) -> (r: Result<Vec<u8>, Error>)
    ensures
        r is Ok <==> data_encodable(d@),
        r matches Ok(v) ==> v@ == enc_data(d@),
        r matches Err(e) ==> e.kind == ErrorKind::SerializationError,
{
    if !check_data(d) {
        return Err(Error::new(ErrorKind::SerializationError));
    }
    let mut out: Vec<u8> = Vec::new();
    e_meta(&mut out, &d.meta);
    e_opt_kind(&mut out, &d.kind);
    proof {
        assert(out@ =~= enc_data(d@));
    }
    Ok(out)
}

// ---------------------------------------------------------------------------
// Executable decoder
// ---------------------------------------------------------------------------
/// Relies on String::from_utf8: succeeds exactly on valid UTF-8 input and
/// returns the characters the bytes decode to.
#[verifier::external_body]
fn string_from_utf8(v: Vec<u8>) -> (r: Option<String>)
    ensures
        r is Some <==> valid_utf8(v@),
        r matches Some(s) ==> s@ == decode_utf8(v@),
{
    match String::from_utf8(v) {
        Ok(s) => Some(s),
        Err(_) => None,
    }
}

fn d_u8<'a>(s: &'a [u8]) -> (r: Option<(u8, &'a [u8])>)
    ensures
        r is Some <==> parse_u8(s@) is Some,
        r matches Some((x, rest)) ==> parse_u8(s@) == Some((x, rest@)),
{
    if s.len() >= 1 {
        let x = *vstd::slice::slice_index_get(s, 0);
        let rest = slice_subrange(s, 1, s.len());
        proof {
            assert(rest@ =~= s@.skip(1));
        }
        Some((x, rest))
    } else {
        None
    }
}

fn d_u32<'a>(s: &'a [u8]) -> (r: Option<(u32, &'a [u8])>)
    ensures
        r is Some <==> parse_u32(s@) is Some,
        r matches Some((x, rest)) ==> parse_u32(s@) == Some((x, rest@)),
{
    if s.len() >= 4 {
        let head = slice_subrange(s, 0, 4);
        let x = u32_from_le_bytes(head);
        let rest = slice_subrange(s, 4, s.len());
        proof {
            assert(head@ =~= s@.take(4));
            assert(rest@ =~= s@.skip(4));
        }
        Some((x, rest))
    } else {
        None
    }
}

fn d_i32<'a>(s: &'a [u8]) -> (r: Option<(i32, &'a [u8])>)
    ensures
        r is Some <==> parse_i32(s@) is Some,
        r matches Some((x, rest)) ==> parse_i32(s@) == Some((x, rest@)),
{
    match d_u32(s) {
        Some((x, rest)) => Some((#[verifier::truncate] (x as i32), rest)),
        None => None,
    }
}

fn d_str<'a>(s: &'a [u8]) -> (r: Option<(String, &'a [u8])>)
    ensures
        r is Some <==> parse_str(s@) is Some,
        r matches Some((st, rest)) ==> parse_str(s@) == Some((st@, rest@)),
{
    match d_u32(s) {
        Some((n, r1)) => {
            let n_us = n as usize;
            if r1.len() < n_us {
                return None;
            }
            let body = slice_subrange(r1, 0, n_us);
            proof {
                assert(body@ =~= r1@.take(n as int));
            }
            let bv = slice_to_vec(body);
            match string_from_utf8(bv) {
                Some(st) => {
                    let rest = slice_subrange(r1, n_us, r1.len());
                    proof {
                        assert(rest@ =~= r1@.skip(n as int));
                    }
                    Some((st, rest))
                },
                None => None,
            }
        },
        None => None,
    }
}

fn d_opt_str<'a>(s: &'a [u8]) -> (r: Option<(Option<String>, &'a [u8])>)
    ensures
        r is Some <==> parse_opt_str(s@) is Some,
        r matches Some((v, rest)) ==> parse_opt_str(s@) == Some((opt_string_view(v), rest@)),
{
    match d_u8(s) {
        Some((tag, r1)) => {
            if tag == 0 {
                Some((None, r1))
            } else if tag == 1 {
                match d_str(r1) {
                    Some((st, r2)) => Some((Some(st), r2)),
                    None => None,
                }
            } else {
                None
            }
        },
        None => None,
    }
}

fn d_opt_i32<'a>(s: &'a [u8]) -> (r: Option<(Option<i32>, &'a [u8])>)
    ensures
        r is Some <==> parse_opt_i32(s@) is Some,
        r matches Some((v, rest)) ==> parse_opt_i32(s@) == Some((v, rest@)),
{
    match d_u8(s) {
        Some((tag, r1)) => {
            if tag == 0 {
                Some((None, r1))
            } else if tag == 1 {
                match d_i32(r1) {
                    Some((x, r2)) => Some((Some(x), r2)),
                    None => None,
                }
            } else {
                None
            }
        },
        None => None,
    }
}

fn d_target<'a>(s: &'a [u8]) -> (r: Option<(Target, &'a [u8])>)
    ensures
        r is Some <==> parse_target(s@) is Some,
        r matches Some((t, rest)) ==> parse_target(s@) == Some((t@, rest@)),
{
    match d_u8(s) {
        Some((tag, r1)) => {
            if tag == 0 {
                match d_str(r1) {
                    Some((st, r2)) => Some((Target::Name(st), r2)),
                    None => None,
                }
            } else if tag == 1 {
                match d_u32(r1) {
                    Some((p, r2)) => Some((Target::Pid(p), r2)),
                    None => None,
                }
            } else {
                None
            }
        },
        None => None,
    }
}

fn d_command<'a>(s: &'a [u8]) -> (r: Option<(Command, &'a [u8])>)
    ensures
        r is Some <==> parse_command(s@) is Some,
        r matches Some((c, rest)) ==> parse_command(s@) == Some((c@, rest@)),
{
    match d_u8(s) {
        Some((tag, r1)) => {
            if tag == 5 {
                Some((Command::List, r1))
            } else if tag <= 4 {
                match d_target(r1) {
                    Some((t, r2)) => {
                        if tag == 0 {
                            Some((Command::Init(t), r2))
                        } else if tag == 1 {
                            Some((Command::Start(t), r2))
                        } else if tag == 2 {
                            Some((Command::Restart(t), r2))
                        } else if tag == 3 {
                            Some((Command::Stop(t), r2))
                        } else {
                            Some((Command::Status(t), r2))
                        }
                    },
                    None => None,
                }
            } else {
                None
            }
        },
        None => None,
    }
}

fn d_status<'a>(s: &'a [u8]) -> (r: Option<(Status, &'a [u8])>)
    ensures
        r is Some <==> parse_status(s@) is Some,
        r matches Some((st, rest)) ==> parse_status(s@) == Some((st, rest@)),
{
    match d_u8(s) {
        Some((tag, r1)) => {
            if tag == 0 {
                Some((Status::Starting, r1))
            } else if tag == 1 {
                Some((Status::Running, r1))
            } else if tag == 2 {
                match d_i32(r1) {
                    Some((v, r2)) => Some((Status::Exited(v), r2)),
                    None => None,
                }
            } else if tag == 3 {
                match d_i32(r1) {
                    Some((v, r2)) => Some((Status::Crashed(v), r2)),
                    None => None,
                }
            } else if tag == 4 {
                Some((Status::Restarting, r1))
            } else if tag == 5 {
                Some((Status::Stopped, r1))
            } else {
                None
            }
        },
        None => None,
    }
}

fn d_response<'a>(s: &'a [u8]) -> (r: Option<(CommandResponse, &'a [u8])>)
    ensures
        r is Some <==> parse_response(s@) is Some,
        r matches Some((c, rest)) ==> parse_response(s@) == Some((c@, rest@)),
{
    match d_u8(s) {
        Some((tag, r1)) => {
            if tag == 0 {
                match d_str(r1) {
                    Some((name, r2)) => match d_u32(r2) {
                        Some((id, r3)) => match d_status(r3) {
                            Some((status, r4)) => Some(
                                (CommandResponse::ListItem { name, id, status }, r4),
                            ),
                            None => None,
                        },
                        None => None,
                    },
                    None => None,
                }
            } else {
                None
            }
        },
        None => None,
    }
}

fn d_kind<'a>(s: &'a [u8]) -> (r: Option<(MessageKind, &'a [u8])>)
    ensures
        r is Some <==> parse_kind(s@) is Some,
        r matches Some((k, rest)) ==> parse_kind(s@) == Some((k@, rest@)),
{
    match d_u8(s) {
        Some((tag, r1)) => {
            if tag == 0 {
                Some((MessageKind::ReadPipeEnd, r1))
            } else if tag == 1 {
                Some((MessageKind::WritePipeEnd, r1))
            } else if tag == 2 {
                Some((MessageKind::ReadCtlEnd, r1))
            } else if tag == 3 {
                Some((MessageKind::WriteCtlEnd, r1))
            } else if tag == 4 {
                match d_command(r1) {
                    Some((c, r2)) => Some((MessageKind::Command(c), r2)),
                    None => None,
                }
            } else if tag == 5 {
                match d_response(r1) {
                    Some((c, r2)) => Some((MessageKind::CommandResponse(c), r2)),
                    None => None,
                }
            } else {
                None
            }
        },
        None => None,
    }
}

fn d_opt_kind<'a>(s: &'a [u8]) -> (r: Option<(Option<MessageKind>, &'a [u8])>)
    ensures
        r is Some <==> parse_opt_kind(s@) is Some,
        r matches Some((v, rest)) ==> parse_opt_kind(s@) == Some((opt_kind_view(v), rest@)),
{
    match d_u8(s) {
        Some((tag, r1)) => {
            if tag == 0 {
                Some((None, r1))
            } else if tag == 1 {
                match d_kind(r1) {
                    Some((k, r2)) => Some((Some(k), r2)),
                    None => None,
                }
            } else {
                None
            }
        },
        None => None,
    }
}

fn d_meta<'a>(s: &'a [u8]) -> (r: Option<(Metadata, &'a [u8])>)
    ensures
        r is Some <==> parse_meta(s@) is Some,
        r matches Some((m, rest)) ==> parse_meta(s@) == Some((m@, rest@)),
{
    match d_opt_str(s) {
        Some((proc_name, r1)) => match d_opt_i32(r1) {
            Some((pid, r2)) => match d_i32(r2) {
                Some((source_pid, r3)) => match d_opt_i32(r3) {
                    Some((target_pid, r4)) => Some(
                        (Metadata { proc_name, pid, source_pid, target_pid }, r4),
                    ),
                    None => None,
                },
                None => None,
            },
            None => None,
        },
        None => None,
    }
}

/// Decodes the bytes of one datagram back into an envelope. Succeeds exactly
/// when the bytes are a whole well-formed encoding; fails with a protocol
/// error otherwise.
pub fn decode_message_data(bytes: &[u8]) -> (r: Result<MessageData, Error>)
    ensures
        r is Ok <==> spec_decode(bytes@) is Some,
        r matches Ok(d) ==> spec_decode(bytes@) == Some(d@),
        r matches Err(e) ==> e.kind == ErrorKind::ProtocolError,
{
    match d_meta(bytes) {
        Some((meta, r1)) => match d_opt_kind(r1) {
            Some((kind, r2)) => {
                if r2.len() == 0 {
                    Ok(MessageData { meta, kind })
                } else {
                    Err(Error::new(ErrorKind::ProtocolError))
                }
            },
            None => Err(Error::new(ErrorKind::ProtocolError)),
        },
        None => Err(Error::new(ErrorKind::ProtocolError)),
    }
}

} // verus!
