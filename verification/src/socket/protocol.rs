//! Length-prefixed framing, and notifications as they are sent.
//!
//! Wire format: 4-byte big-endian length + protobuf body.
//! Maximum message size: 1 MB.

use crate::dbus::server::{pair_texts, Notification, NotificationView, Priority};
use crate::error::NotifyError;
use crate::socket::proto::types::{action_texts, NotificationWire};
use crate::text::{decimal, decimal_text, join};
use bytes::BufMut;
use vstd::prelude::*;

pub use crate::socket::proto;

verus! {

/// Maximum message size (1 MB).
pub const MAX_MESSAGE_SIZE: usize = 1048576;

/// Length of the framing header (4 bytes).
pub const HEADER_SIZE: usize = 4;

/// The number that four bytes stand for, most significant first.
pub open spec fn be_number(bytes: Seq<u8>) -> nat {
    (bytes[0] * 16777216 + bytes[1] * 65536 + bytes[2] * 256 + bytes[3]) as nat
}

/// The four bytes of a number, most significant first.
pub open spec fn be_bytes(n: u32) -> Seq<u8> {
    seq![
        (n / 16777216) as u8,
        (n / 65536 % 256) as u8,
        (n / 256 % 256) as u8,
        (n % 256) as u8,
    ]
}

/// Four bytes written for a number read back as that number.
pub proof fn number_reads_back(n: u32)
    ensures
        be_number(be_bytes(n)) == n,
{
}

/// The number that four bytes stand for, most significant first.
pub fn read_be_number(bytes: [u8; 4]) -> (r: u32)
    ensures
        r == be_number(bytes@),
{
    (bytes[0] as u32) * 16777216 + (bytes[1] as u32) * 65536 + (bytes[2] as u32) * 256 + (
    bytes[3] as u32)
}

/// `bytes::BufMut::put_u32` on a vector: appends the four bytes of a number,
/// most significant first.
#[verifier::external_body]
fn put_u32(buf: &mut Vec<u8>, n: u32)
    requires
        old(buf)@.len() + 4 <= isize::MAX,
    ensures
        final(buf)@ == old(buf)@ + be_bytes(n),
{
    buf.put_u32(n);
}

/// The frame of a message: the length of its body in four bytes, then the
/// body.
pub open spec fn frame(body: Seq<u8>) -> Seq<u8> {
    be_bytes(body.len() as u32) + body
}

/// What stands at the beginning of a stream of bytes.
pub enum FrameView {
    /// The stream ends before a whole header.
    End,
    /// The header announces a body of this length, beyond the maximum.
    TooLarge(nat),
    /// The stream ends within the body.
    Truncated,
    /// A whole frame with this body.
    Body(Seq<u8>),
}

/// What stands at the beginning of a stream of bytes.
pub open spec fn first_frame(stream: Seq<u8>) -> FrameView {
    if stream.len() < HEADER_SIZE {
        FrameView::End
    } else {
        let len = be_number(stream);
        if len > MAX_MESSAGE_SIZE {
            FrameView::TooLarge(len)
        } else if stream.len() < HEADER_SIZE + len {
            FrameView::Truncated
        } else {
            FrameView::Body(stream.subrange(HEADER_SIZE as int, HEADER_SIZE + len))
        }
    }
}

/// The error text for a body that is too large to send.
pub open spec fn too_large_to_send(len: nat) -> Seq<char> {
    "message too large: "@ + decimal_text(len) + " bytes (max "@ + decimal_text(
        MAX_MESSAGE_SIZE as nat,
    ) + ")"@
}

/// The error text for a header that announces too large a body.
pub open spec fn too_large_to_read(len: nat) -> Seq<char> {
    "message too large: "@ + decimal_text(len) + " bytes"@
}

/// Encode the body of a message into a length-prefixed buffer.
pub fn encode_message(body: &[u8]) -> (r: Result<Vec<u8>, NotifyError>)
    ensures
        body@.len() <= MAX_MESSAGE_SIZE <==> r is Ok,
        r matches Ok(buf) ==> buf@ == frame(body@),
        r matches Err(e) ==> e matches NotifyError::Invalid(text) && text@ == too_large_to_send(
            body@.len(),
        ),
{
    let body_len: usize = body.len();
    if body_len > MAX_MESSAGE_SIZE {
        let number: String = decimal(body_len as u64);
        let limit: String = decimal(MAX_MESSAGE_SIZE as u64);
        let mut text: String = join("message too large: ", number.as_str());
        text = join(text.as_str(), " bytes (max ");
        text = join(text.as_str(), limit.as_str());
        text = join(text.as_str(), ")");
        return Err(NotifyError::Invalid(text));
    }
    let mut buf: Vec<u8> = Vec::with_capacity(HEADER_SIZE + body_len);
    put_u32(&mut buf, body_len as u32);
    buf.extend_from_slice(body);
    assert(buf@ =~= frame(body@));
    Ok(buf)
}

/// The length of the body that a header announces.
pub fn body_length(header: [u8; 4]) -> (r: Result<usize, NotifyError>)
    ensures
        be_number(header@) <= MAX_MESSAGE_SIZE <==> r is Ok,
        r matches Ok(len) ==> len == be_number(header@),
        r matches Err(e) ==> e matches NotifyError::Invalid(text) && text@ == too_large_to_read(
            be_number(header@),
        ),
{
    let len: u32 = read_be_number(header);
    if len as usize > MAX_MESSAGE_SIZE {
        let number: String = decimal(len as u64);
        let text: String = join("message too large: ", number.as_str());
        return Err(NotifyError::Invalid(join(text.as_str(), " bytes")));
    }
    Ok(len as usize)
}

/// Read the body of a single length-prefixed message from the beginning of a
/// stream.
///
/// Returns `None` on clean end of the stream (client disconnected).
pub fn read_message(stream: &[u8]) -> (r: Result<Option<Vec<u8>>, NotifyError>)
    ensures
        match first_frame(stream@) {
            FrameView::End => r matches Ok(None),
            FrameView::TooLarge(len) => r matches Err(e) && e matches NotifyError::Invalid(text)
                && text@ == too_large_to_read(len),
            FrameView::Truncated => r matches Err(e) && e matches NotifyError::Io(text) && text@
                == "early eof"@,
            FrameView::Body(body) => r matches Ok(Some(b)) && b@ == body,
        },
{
    if stream.len() < HEADER_SIZE {
        return Ok(None);
    }
    let header: [u8; 4] = [stream[0], stream[1], stream[2], stream[3]];
    assert(be_number(header@) == be_number(stream@));
    let len: usize = match body_length(header) {
        Ok(len) => len,
        Err(e) => return Err(e),
    };
    if stream.len() - HEADER_SIZE < len {
        return Err(NotifyError::Io("early eof".to_string()));
    }
    let total: usize = stream.len();
    let mut body: Vec<u8> = Vec::with_capacity(len);
    let mut i: usize = 0;
    while i < len
        invariant
            i <= len,
            total == stream@.len(),
            len + HEADER_SIZE <= total,
            body@ == stream@.subrange(HEADER_SIZE as int, HEADER_SIZE + i),
        decreases len - i,
    {
        body.push(stream[HEADER_SIZE + i]);
        i += 1;
        assert(body@ =~= stream@.subrange(HEADER_SIZE as int, HEADER_SIZE + i));
    }
    Ok(Some(body))
}

/// Write the body of a message, length-prefixed, to the end of a stream.
pub fn write_message(stream: &mut Vec<u8>, body: &[u8]) -> (r: Result<(), NotifyError>)
    ensures
        body@.len() <= MAX_MESSAGE_SIZE <==> r is Ok,
        r is Ok ==> final(stream)@ == old(stream)@ + frame(body@),
        r is Err ==> final(stream)@ == old(stream)@,
        r matches Err(e) ==> e matches NotifyError::Invalid(text) && text@ == too_large_to_send(
            body@.len(),
        ),
{
    match encode_message(body) {
        Ok(buf) => {
            stream.extend_from_slice(buf.as_slice());
            assert(stream@ =~= old(stream)@ + frame(body@));
            Ok(())
        },
        Err(e) => Err(e),
    }
}

/// What was written is read back: a stream that begins with the frame of a
/// body gives that body, and what follows the frame is what followed it.
pub proof fn frame_reads_back(body: Seq<u8>, rest: Seq<u8>)
    requires
        body.len() <= MAX_MESSAGE_SIZE,
    ensures
        first_frame(frame(body) + rest) == FrameView::Body(body),
        (frame(body) + rest).skip((HEADER_SIZE + body.len()) as int) == rest,
{
    let stream = frame(body) + rest;
    number_reads_back(body.len() as u32);
    assert(be_number(stream) == be_number(be_bytes(body.len() as u32)));
    assert(stream.subrange(HEADER_SIZE as int, (HEADER_SIZE + body.len()) as int) =~= body);
    assert(stream.skip((HEADER_SIZE + body.len()) as int) =~= rest);
}

/// An empty stream is a clean end.
pub proof fn empty_stream_ends()
    ensures
        first_frame(Seq::empty()) == FrameView::End,
{
}

/// The number of a priority on the wire.
pub open spec fn wire_priority(p: Priority) -> i32 {
    match p {
        Priority::Low => proto::Priority::Low.spec_number(),
        Priority::Normal => proto::Priority::Normal.spec_number(),
        Priority::High => proto::Priority::High.spec_number(),
        Priority::Critical => proto::Priority::Critical.spec_number(),
    }
}

/// A notification as it is sent: without its urgency hint and timeout, and
/// with its priority as a number.
pub open spec fn wire_of(n: NotificationView) -> NotificationWire {
    NotificationWire {
        id: n.id,
        app_name: n.app_name,
        summary: n.summary,
        body: n.body,
        app_icon: n.app_icon,
        actions: n.actions,
        priority: wire_priority(n.priority),
        category: n.category,
        timestamp: n.timestamp,
        read: n.read,
    }
}

/// The actions of a notification as they are sent.
fn wire_actions(actions: &Vec<(String, String)>) -> (r: Vec<proto::Action>)
    ensures
        action_texts(r@) == pair_texts(actions@),
        r@.len() == actions@.len(),
        forall|j: int| 0 <= j < actions@.len() ==> (#[trigger] r@[j]).key@ == actions@[j].0@,
        forall|j: int| 0 <= j < actions@.len() ==> (#[trigger] r@[j]).label@ == actions@[j].1@,
{
    let mut out: Vec<proto::Action> = Vec::with_capacity(actions.len());
    let mut i: usize = 0;
    while i < actions.len()
        invariant
            i <= actions@.len(),
            out@.len() == i,
            forall|j: int| 0 <= j < i ==> (#[trigger] out@[j]).key@ == actions@[j].0@,
            forall|j: int| 0 <= j < i ==> (#[trigger] out@[j]).label@ == actions@[j].1@,
        decreases actions@.len() - i,
    {
        let action: proto::Action = proto::Action {
            key: actions[i].0.clone(),
            label: actions[i].1.clone(),
        };
        out.push(action);
        i += 1;
    }
    assert(action_texts(out@) =~= pair_texts(actions@));
    out
}

impl<'a> From<&'a Notification> for proto::Notification {
    fn from(n: &'a Notification) -> (r: Self)
        ensures
            r@ == wire_of(n@),
            r.id == n.id,
            r.app_name@ == n.app_name@,
            r.summary@ == n.summary@,
            r.body@ == n.body@,
            r.app_icon@ == n.app_icon@,
            r.actions@.len() == n.actions@.len(),
            forall|i: int|
                0 <= i < n.actions@.len() ==> (#[trigger] r.actions@[i]).key@ == n.actions@[i].0@,
            forall|i: int|
                0 <= i < n.actions@.len() ==> (#[trigger] r.actions@[i]).label@
                    == n.actions@[i].1@,
            r.priority == n.priority.rank(),
            r.category@ == n.category@,
            r.timestamp@ == n.timestamp@,
            r.read == n.read,
    {
        proto::Notification {
            id: n.id,
            app_name: n.app_name.clone(),
            summary: n.summary.clone(),
            body: n.body.clone(),
            app_icon: n.app_icon.clone(),
            actions: wire_actions(&n.actions),
            priority: match n.priority {
                Priority::Low => proto::Priority::Low.number(),
                Priority::Normal => proto::Priority::Normal.number(),
                Priority::High => proto::Priority::High.number(),
                Priority::Critical => proto::Priority::Critical.number(),
            },
            category: n.category.clone(),
            timestamp: n.timestamp.clone(),
            read: n.read,
        }
    }
}

impl<'a> vstd::std_specs::convert::FromSpecImpl<&'a Notification> for proto::Notification {
    open spec fn obeys_from_spec() -> bool {
        false
    }

    open spec fn from_spec(n: &'a Notification) -> Self {
        arbitrary()
    }
}

} // verus!
