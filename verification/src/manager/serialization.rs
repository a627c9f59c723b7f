//! The envelope and its framing on the byte stream.
//!
//! Every frame is a four-byte big-endian length followed by that many bytes
//! of envelope body. The body is a Protocol Buffers message with three
//! fields: the payload type (1, varint), the payload (2, bytes) and a client
//! message id (3, text).

use crate::manager::registry::{MessageKind, PayloadSchema, TagRegistry};
use crate::wire::field::{
    delimited_decoding, delimited_field, field_skip_len, key_decoding, lemma_delimited_roundtrip,
    lemma_key_roundtrip, put_delimited_field, put_varint_field, skip_value, take_delimited,
    take_key, varint_field, WireType,
};
use crate::wire::text::string_from_utf8;
use crate::wire::varint::{
    lemma_varint_encoding_len, lemma_varint_roundtrip, take_varint, varint_decoding,
    varint_encoding,
};
use vstd::prelude::*;
use vstd::slice::{slice_subrange, slice_to_vec};
use vstd::utf8::{decode_utf8, encode_utf8, valid_utf8};

verus! {

/// Field number of the payload type inside an envelope body.
pub const PAYLOAD_TYPE_FIELD: u32 = 1;

/// Field number of the payload inside an envelope body.
pub const PAYLOAD_FIELD: u32 = 2;

/// Field number of the client message id inside an envelope body.
pub const CLIENT_MSG_ID_FIELD: u32 = 3;

/// Field number of the payload type inside a ping request.
pub const PING_PAYLOAD_TYPE_FIELD: u32 = 1;

/// Field number of the timestamp inside a ping request.
pub const PING_TIMESTAMP_FIELD: u32 = 2;

/// Size of the length prefix in bytes.
pub const FRAME_HEADER_LEN: usize = 4;

/// Longest body a frame may declare or carry: 64 MiB. No message of the
/// gateway comes near it, so a larger prefix means that the stream is out of
/// step, and nobody is asked to set that much memory aside on its word.
pub const MAX_FRAME_LEN: u32 = 0x0400_0000;

/// Why bytes could not be turned into an envelope, or an envelope into a
/// frame.
#[derive(Clone, Copy, Debug, PartialEq, Eq, Structural)]
pub enum FramingError {
    /// The stream ends before the length prefix or the declared body does.
    Truncated,
    /// The declared body length is larger than any frame may be.
    LengthOutOfRange,
    /// The body is not an envelope.
    MalformedBody,
}

impl FramingError {
    /// Whether reading can go on with the next frame: the faulty frame was
    /// taken off the stream whole, only its body was no envelope.
    pub open spec fn leaves_stream_aligned(self) -> bool {
        self is MalformedBody
    }

    /// Whether the faulty frame can be dropped and the next one read. A bad
    /// length leaves no way to tell where the next frame starts.
    pub fn can_resume(self) -> (resume: bool)
        ensures
            resume == self.leaves_stream_aligned(),
    {
        match self {
            FramingError::MalformedBody => true,
            _ => false,
        }
    }
}

/// The outer message of the protocol: a payload type tag, the payload bytes
/// that the tag explains, and an id the client may attach.
#[derive(Clone, Debug, PartialEq, Eq)]
pub struct ProtoMessage {
    pub payload_type: u32,
    pub payload: Option<Vec<u8>>,
    pub client_msg_id: Option<String>,
}

/// What an envelope holds, as mathematics.
pub struct ProtoMessageView {
    pub payload_type: u32,
    pub payload: Option<Seq<u8>>,
    pub client_msg_id: Option<Seq<char>>,
}

impl View for ProtoMessage {
    type V = ProtoMessageView;

    open spec fn view(&self) -> ProtoMessageView {
        ProtoMessageView {
            payload_type: self.payload_type,
            payload: match self.payload {
                Some(bytes) => Some(bytes@),
                None => None,
            },
            client_msg_id: match self.client_msg_id {
                Some(text) => Some(text@),
                None => None,
            },
        }
    }
}

/// The envelope that a body without any field decodes to.
pub open spec fn empty_envelope() -> ProtoMessageView {
    ProtoMessageView { payload_type: 0, payload: None, client_msg_id: None }
}

/// The body of an envelope: the payload type always, then the payload and the
/// client message id where present.
pub open spec fn envelope_body(m: ProtoMessageView) -> Seq<u8> {
    varint_field(PAYLOAD_TYPE_FIELD, m.payload_type as u64) + (match m.payload {
        Some(bytes) => delimited_field(PAYLOAD_FIELD, bytes),
        None => Seq::empty(),
    }) + (match m.client_msg_id {
        Some(text) => delimited_field(CLIENT_MSG_ID_FIELD, encode_utf8(text)),
        None => Seq::empty(),
    })
}

/// Four bytes, most significant first.
pub open spec fn be32(n: u32) -> Seq<u8> {
    seq![
        (n / 0x100_0000) as u8,
        (n / 0x1_0000 % 256) as u8,
        (n / 0x100 % 256) as u8,
        (n % 256) as u8,
    ]
}

/// The number that four bytes spell, most significant first.
pub open spec fn from_be32(s: Seq<u8>) -> nat
    recommends
        s.len() == 4,
{
    (s[0] * 0x100_0000 + s[1] * 0x1_0000 + s[2] * 0x100 + s[3]) as nat
}

/// A whole frame: length prefix, then body.
pub open spec fn envelope_frame(m: ProtoMessageView) -> Seq<u8> {
    be32(envelope_body(m).len() as u32) + envelope_body(m)
}

/// Whether an envelope fits in a frame.
pub open spec fn fits_frame(m: ProtoMessageView) -> bool {
    envelope_body(m).len() <= MAX_FRAME_LEN
}

/// Takes one field value into the envelope read so far. Field 1 must be a
/// varint, of which the low 32 bits count; fields 2 and 3 must be
/// length-delimited, and field 3 well-formed UTF-8; a later occurrence of a
/// field replaces an earlier one. Any other field is skipped. Yields the
/// updated envelope and the length of the value.
pub open spec fn envelope_field(
    number: u32,
    wire: WireType,
    s: Seq<u8>,
    acc: ProtoMessageView,
) -> Option<(ProtoMessageView, nat)> {
    if number == PAYLOAD_TYPE_FIELD {
        match varint_decoding(s) {
            Some((value, used)) if wire is Varint => Some(
                (ProtoMessageView { payload_type: (value % 0x1_0000_0000) as u32, ..acc }, used),
            ),
            _ => None,
        }
    } else if number == PAYLOAD_FIELD {
        match delimited_decoding(s) {
            Some((content, used)) if wire is LengthDelimited => Some(
                (ProtoMessageView { payload: Some(content), ..acc }, used),
            ),
            _ => None,
        }
    } else if number == CLIENT_MSG_ID_FIELD {
        match delimited_decoding(s) {
            Some((content, used)) if wire is LengthDelimited && valid_utf8(content) => Some(
                (ProtoMessageView { client_msg_id: Some(decode_utf8(content)), ..acc }, used),
            ),
            _ => None,
        }
    } else {
        match field_skip_len(wire, number, s) {
            Some(used) => Some((acc, used)),
            None => None,
        }
    }
}

/// Reads fields from `s` into `acc` until `s` is used up.
pub open spec fn envelope_merge(s: Seq<u8>, acc: ProtoMessageView) -> Option<ProtoMessageView>
    decreases s.len(),
{
    if s.len() == 0 {
        Some(acc)
    } else {
        match key_decoding(s) {
            None => None,
            Some((number, wire, used)) => match envelope_field(
                number,
                wire,
                s.skip(used as int),
                acc,
            ) {
                None => None,
                Some((next, len)) => if 0 < used + len <= s.len() {
                    envelope_merge(s.skip((used + len) as int), next)
                } else {
                    None
                },
            },
        }
    }
}

/// The envelope that a body spells, if it spells one.
pub open spec fn envelope_decoding(body: Seq<u8>) -> Option<ProtoMessageView> {
    envelope_merge(body, empty_envelope())
}

/// What the front of a byte stream decodes to: an envelope and the length of
/// its frame, or the reason there is none.
pub open spec fn frame_decoding(stream: Seq<u8>) -> Result<(ProtoMessageView, nat), FramingError> {
    if stream.len() < 4 {
        Err(FramingError::Truncated)
    } else {
        let declared = from_be32(stream.subrange(0, 4));
        if declared > MAX_FRAME_LEN {
            Err(FramingError::LengthOutOfRange)
        } else if stream.len() < 4 + declared {
            Err(FramingError::Truncated)
        } else {
            match envelope_decoding(stream.subrange(4, (4 + declared) as int)) {
                Some(m) => Ok((m, 4 + declared)),
                None => Err(FramingError::MalformedBody),
            }
        }
    }
}

impl ProtoMessage {
    /// An envelope around an already encoded payload.
    pub fn new(payload: Vec<u8>, payload_type: u32) -> (m: ProtoMessage)
        ensures
            m@ == (ProtoMessageView {
                payload_type,
                payload: Some(payload@),
                client_msg_id: None,
            }),
    {
        ProtoMessage { payload_type, payload: Some(payload), client_msg_id: None }
    }

    /// A copy with the same content.
    pub fn duplicate(&self) -> (m: ProtoMessage)
        ensures
            m@ == self@,
    {
        let payload = match &self.payload {
            Some(bytes) => Some(slice_to_vec(bytes.as_slice())),
            None => None,
        };
        let client_msg_id = match &self.client_msg_id {
            Some(text) => Some(text.clone()),
            None => None,
        };
        ProtoMessage { payload_type: self.payload_type, payload, client_msg_id }
    }

    /// Appends the body of this envelope to `out`.
    pub fn encode_body(&self, out: &mut Vec<u8>)
        ensures
            final(out)@ == old(out)@ + envelope_body(self@),
    {
        put_varint_field(PAYLOAD_TYPE_FIELD, self.payload_type as u64, out);
        match &self.payload {
            Some(bytes) => {
                put_delimited_field(PAYLOAD_FIELD, bytes.as_slice(), out);
            },
            None => {},
        }
        match &self.client_msg_id {
            Some(text) => {
                put_delimited_field(CLIENT_MSG_ID_FIELD, text.as_str().as_bytes(), out);
            },
            None => {},
        }
        assert(out@ =~= old(out)@ + envelope_body(self@));
    }

    /// Decodes an envelope body. Fails exactly where the bytes are not a
    /// sequence of well-formed fields with the three envelope fields of the
    /// right kind.
    pub fn decode_body(body: &[u8]) -> (r: Result<ProtoMessage, FramingError>)
        ensures
            match envelope_decoding(body@) {
                Some(m) => r matches Ok(got) && got@ == m,
                None => r == Err::<ProtoMessage, FramingError>(FramingError::MalformedBody),
            },
    {
        let mut message = ProtoMessage { payload_type: 0, payload: None, client_msg_id: None };
        let mut at: usize = 0;
        assert(body@.skip(0) =~= body@);
        while at < body.len()
            invariant
                at <= body@.len(),
                envelope_decoding(body@) == envelope_merge(body@.skip(at as int), message@),
            decreases body@.len() - at,
        {
            let rest = slice_subrange(body, at, body.len());
            assert(rest@ =~= body@.skip(at as int));
            let (number, wire, left) = match take_key(rest) {
                None => {
                    return Err(FramingError::MalformedBody);
                },
                Some(key) => key,
            };
            let value = slice_subrange(rest, rest.len() - left, rest.len());
            assert(value@ =~= rest@.skip(rest@.len() - left));
            let ghost before = message@;
            let after: usize;
            if number == PAYLOAD_TYPE_FIELD {
                if wire != WireType::Varint {
                    return Err(FramingError::MalformedBody);
                }
                match take_varint(value) {
                    Err(_) => {
                        return Err(FramingError::MalformedBody);
                    },
                    Ok((raw, remaining)) => {
                        let low: u64 = raw % 0x1_0000_0000;
                        message.payload_type = low as u32;
                        after = remaining;
                    },
                }
            } else if number == PAYLOAD_FIELD {
                if wire != WireType::LengthDelimited {
                    return Err(FramingError::MalformedBody);
                }
                match take_delimited(value) {
                    None => {
                        return Err(FramingError::MalformedBody);
                    },
                    Some((from, to)) => {
                        message.payload = Some(slice_to_vec(slice_subrange(value, from, to)));
                        after = value.len() - to;
                    },
                }
            } else if number == CLIENT_MSG_ID_FIELD {
                if wire != WireType::LengthDelimited {
                    return Err(FramingError::MalformedBody);
                }
                match take_delimited(value) {
                    None => {
                        return Err(FramingError::MalformedBody);
                    },
                    Some((from, to)) => {
                        match string_from_utf8(slice_to_vec(slice_subrange(value, from, to))) {
                            None => {
                                return Err(FramingError::MalformedBody);
                            },
                            Some(text) => {
                                message.client_msg_id = Some(text);
                            },
                        }
                        after = value.len() - to;
                    },
                }
            } else {
                match skip_value(wire, number, value) {
                    Err(_) => {
                        return Err(FramingError::MalformedBody);
                    },
                    Ok(remaining) => {
                        after = remaining;
                    },
                }
            }
            proof {
                let used = (rest@.len() - left) as nat;
                let len = (value@.len() - after) as nat;
                assert(envelope_field(number, wire, value@, before) == Some((message@, len)));
                assert(body@.skip((body@.len() - after) as int) =~= rest@.skip(
                    (used + len) as int,
                ));
            }
            at = body.len() - after;
        }
        assert(body@.skip(at as int).len() == 0);
        Ok(message)
    }
}

/// The value that an enumeration field carries for a tag: the tag read as a
/// signed 32-bit number and widened to 64 bits.
pub open spec fn enum_value(tag: u32) -> u64 {
    if tag < 0x8000_0000 {
        tag as u64
    } else {
        (tag + 0xffff_ffff_0000_0000) as u64
    }
}

/// Payload of a ping request: its own payload type and a millisecond
/// timestamp.
pub open spec fn ping_payload(tag: u32, timestamp_ms: u64) -> Seq<u8> {
    varint_field(PING_PAYLOAD_TYPE_FIELD, enum_value(tag)) + varint_field(
        PING_TIMESTAMP_FIELD,
        timestamp_ms,
    )
}

/// What a length prefix declares, or why it is no length.
pub open spec fn frame_length_decoding(header: Seq<u8>) -> Result<nat, FramingError> {
    if header.len() < 4 {
        Err(FramingError::Truncated)
    } else if from_be32(header.subrange(0, 4)) > MAX_FRAME_LEN {
        Err(FramingError::LengthOutOfRange)
    } else {
        Ok(from_be32(header.subrange(0, 4)))
    }
}

/// The enumeration value of a tag.
pub fn enum_value_of(tag: u32) -> (value: u64)
    ensures
        value == enum_value(tag),
{
    if tag < 0x8000_0000 {
        tag as u64
    } else {
        tag as u64 + 0xffff_ffff_0000_0000
    }
}

fn put_be32(n: u32, out: &mut Vec<u8>)
    ensures
        final(out)@ == old(out)@ + be32(n),
{
    out.push((n / 0x100_0000) as u8);
    out.push((n / 0x1_0000 % 256) as u8);
    out.push((n / 0x100 % 256) as u8);
    out.push((n % 256) as u8);
    assert(out@ =~= old(out)@ + be32(n));
}

fn read_be32(bytes: &[u8]) -> (n: u32)
    requires
        bytes@.len() >= 4,
    ensures
        n == from_be32(bytes@.subrange(0, 4)),
{
    let b0: u32 = bytes[0] as u32;
    let b1: u32 = bytes[1] as u32;
    let b2: u32 = bytes[2] as u32;
    let b3: u32 = bytes[3] as u32;
    b0 * 0x100_0000 + b1 * 0x1_0000 + b2 * 0x100 + b3
}

impl ProtoMessage {
    /// Whether this is the answer to a ping.
    pub fn is_pong(&self, registry: &TagRegistry) -> (pong: bool)
        ensures
            pong == (registry.schema_of(self.payload_type) == Some(PayloadSchema::PingRes)),
    {
        match registry.schema(self.payload_type) {
            Some(PayloadSchema::PingRes) => true,
            _ => false,
        }
    }

    /// Whether this is keepalive traffic: a heartbeat, a ping or a pong. Such
    /// envelopes never reach the application.
    pub fn is_keepalive(&self, registry: &TagRegistry) -> (keepalive: bool)
        ensures
            keepalive == (registry.kind_of(self.payload_type) == MessageKind::Heartbeat),
    {
        registry.classify(self.payload_type) == MessageKind::Heartbeat
    }
}

/// Per-connection state of the codec. The protocol keeps none.
#[derive(Clone, Copy, Debug, PartialEq, Eq, Structural)]
pub struct ManagerApiSerializerState {}

impl ManagerApiSerializerState {
    /// Whether an envelope only serves to set codec state. None does.
    pub fn is_tcp_contract_related_to_metadata(&self, _contract: &ProtoMessage) -> (related: bool)
        ensures
            !related,
    {
        false
    }

    /// Takes note of an envelope. There is nothing to note.
    pub fn apply_tcp_contract(&mut self, _contract: &ProtoMessage)
        ensures
            *final(self) == *old(self),
    {
    }
}

/// Turns envelopes into frames and back, and makes pings.
pub struct ManagerApiSerializer {
    registry: TagRegistry,
}

impl ManagerApiSerializer {
    /// The registry that the codec takes its ping tag from.
    pub closed spec fn registry(self) -> TagRegistry {
        self.registry
    }

    /// A codec for the given registry.
    pub fn new(registry: TagRegistry) -> (serializer: ManagerApiSerializer)
        ensures
            serializer.registry() == registry,
    {
        ManagerApiSerializer { registry }
    }

    /// Appends the frame of `contract` to `out`. An envelope too large for a
    /// frame is refused and `out` left as it was.
    pub fn serialize(&self, out: &mut Vec<u8>, contract: &ProtoMessage) -> (r: Result<
        (),
        FramingError,
    >)
        ensures
            fits_frame(contract@) ==> r is Ok && final(out)@ == old(out)@ + envelope_frame(
                contract@,
            ),
            !fits_frame(contract@) ==> r == Err::<(), FramingError>(
                FramingError::LengthOutOfRange,
            ) && final(out)@ == old(out)@,
    {
        let mut body: Vec<u8> = Vec::new();
        contract.encode_body(&mut body);
        assert(body@ =~= envelope_body(contract@));
        if body.len() > MAX_FRAME_LEN as usize {
            return Err(FramingError::LengthOutOfRange);
        }
        put_be32(body.len() as u32, out);
        let ghost framed = out@;
        out.extend_from_slice(body.as_slice());
        assert(out@ =~= framed + body@);
        assert(out@ =~= old(out)@ + envelope_frame(contract@));
        Ok(())
    }

    /// Reads a length prefix: the number of body bytes to read next.
    pub fn frame_length(&self, header: &[u8]) -> (r: Result<usize, FramingError>)
        ensures
            match frame_length_decoding(header@) {
                Ok(len) => r == Ok::<usize, FramingError>(len as usize) && len <= MAX_FRAME_LEN,
                Err(e) => r == Err::<usize, FramingError>(e),
            },
    {
        if header.len() < FRAME_HEADER_LEN {
            return Err(FramingError::Truncated);
        }
        let declared = read_be32(header);
        if declared > MAX_FRAME_LEN {
            return Err(FramingError::LengthOutOfRange);
        }
        Ok(declared as usize)
    }

    /// Decodes the frame at the front of `stream`: the envelope and the
    /// number of bytes the frame took.
    pub fn deserialize(&self, stream: &[u8]) -> (r: Result<(ProtoMessage, usize), FramingError>)
        ensures
            match frame_decoding(stream@) {
                Ok((m, used)) => r matches Ok((got, n)) && got@ == m && n == used,
                Err(e) => r == Err::<(ProtoMessage, usize), FramingError>(e),
            },
    {
        let declared = match self.frame_length(stream) {
            Ok(declared) => declared,
            Err(e) => {
                return Err(e);
            },
        };
        if stream.len() - FRAME_HEADER_LEN < declared {
            return Err(FramingError::Truncated);
        }
        let end: usize = FRAME_HEADER_LEN + declared;
        let body = slice_subrange(stream, FRAME_HEADER_LEN, end);
        match ProtoMessage::decode_body(body) {
            Ok(message) => Ok((message, end)),
            Err(e) => Err(e),
        }
    }

    /// The ping to send at `unix_microseconds`: an envelope with the ping
    /// request tag whose payload holds the time in milliseconds.
    pub fn get_ping(&self, unix_microseconds: u64) -> (ping: ProtoMessage)
        ensures
            self.registry().tag_for(PayloadSchema::PingReq) == Some(ping@.payload_type),
            self.registry().kind_of(ping@.payload_type) == MessageKind::Heartbeat,
            ping@.payload == Some(ping_payload(ping@.payload_type, unix_microseconds / 1000)),
            ping@.client_msg_id is None,
    {
        let tag = self.registry.ping_request_tag();
        let mut payload: Vec<u8> = Vec::new();
        put_varint_field(PING_PAYLOAD_TYPE_FIELD, enum_value_of(tag), &mut payload);
        put_varint_field(PING_TIMESTAMP_FIELD, unix_microseconds / 1000, &mut payload);
        assert(payload@ =~= ping_payload(tag, unix_microseconds / 1000));
        ProtoMessage::new(payload, tag)
    }
}

/// Makes codecs for new connections.
pub struct ManagerApiSerializerFactory {
    registry: TagRegistry,
}

impl ManagerApiSerializerFactory {
    /// The registry handed to every codec.
    pub closed spec fn registry(self) -> TagRegistry {
        self.registry
    }

    pub fn new(registry: TagRegistry) -> (factory: ManagerApiSerializerFactory)
        ensures
            factory.registry() == registry,
    {
        ManagerApiSerializerFactory { registry }
    }

    /// A codec over a copy of the factory's registry.
    pub fn create_serializer(&self) -> (serializer: ManagerApiSerializer)
        ensures
            serializer.registry().housekeeping() == self.registry().housekeeping(),
            serializer.registry().domain() == self.registry().domain(),
    {
        ManagerApiSerializer::new(self.registry.duplicate())
    }

    /// Fresh codec state.
    pub fn create_serializer_state(&self) -> (state: ManagerApiSerializerState)
        ensures
            state == (ManagerApiSerializerState {  }),
    {
        ManagerApiSerializerState {  }
    }
}

/// Reading four big-endian bytes undoes writing them.
pub proof fn lemma_be32_roundtrip(n: u32)
    ensures
        be32(n).len() == 4,
        from_be32(be32(n)) == n,
{
}

proof fn lemma_merge_type_field(value: u32, tail: Seq<u8>, acc: ProtoMessageView)
    ensures
        envelope_merge(varint_field(PAYLOAD_TYPE_FIELD, value as u64) + tail, acc)
            == envelope_merge(tail, ProtoMessageView { payload_type: value, ..acc }),
{
    let key = crate::wire::field::key_encoding(PAYLOAD_TYPE_FIELD, WireType::Varint);
    let number = varint_encoding(value as u64);
    let s = varint_field(PAYLOAD_TYPE_FIELD, value as u64) + tail;
    assert(s =~= key + (number + tail));
    lemma_key_roundtrip(PAYLOAD_TYPE_FIELD, WireType::Varint, number + tail);
    lemma_varint_encoding_len(crate::wire::field::field_key(PAYLOAD_TYPE_FIELD, WireType::Varint));
    lemma_varint_encoding_len(value as u64);
    assert(s.skip(key.len() as int) =~= number + tail);
    lemma_varint_roundtrip(value as u64, tail);
    assert(s.skip((key.len() + number.len()) as int) =~= tail);
}

proof fn lemma_merge_delimited_field(
    number: u32,
    content: Seq<u8>,
    tail: Seq<u8>,
    acc: ProtoMessageView,
)
    requires
        number == PAYLOAD_FIELD || number == CLIENT_MSG_ID_FIELD,
        number == CLIENT_MSG_ID_FIELD ==> valid_utf8(content),
        content.len() <= u64::MAX,
    ensures
        envelope_merge(delimited_field(number, content) + tail, acc) == envelope_merge(
            tail,
            if number == PAYLOAD_FIELD {
                ProtoMessageView { payload: Some(content), ..acc }
            } else {
                ProtoMessageView { client_msg_id: Some(decode_utf8(content)), ..acc }
            },
        ),
{
    let key = crate::wire::field::key_encoding(number, WireType::LengthDelimited);
    let prefix = varint_encoding(content.len() as u64);
    let s = delimited_field(number, content) + tail;
    assert(s =~= key + (prefix + content + tail));
    lemma_key_roundtrip(number, WireType::LengthDelimited, prefix + content + tail);
    lemma_varint_encoding_len(crate::wire::field::field_key(number, WireType::LengthDelimited));
    lemma_varint_encoding_len(content.len() as u64);
    assert(s.skip(key.len() as int) =~= prefix + content + tail);
    lemma_delimited_roundtrip(content, tail);
    assert(s.skip((key.len() + (prefix.len() + content.len())) as int) =~= tail);
}

/// Decoding a body undoes encoding it, for every envelope.
pub proof fn lemma_envelope_roundtrip(m: ProtoMessageView)
    requires
        m.payload matches Some(bytes) ==> bytes.len() <= u64::MAX,
        m.client_msg_id matches Some(text) ==> encode_utf8(text).len() <= u64::MAX,
    ensures
        envelope_decoding(envelope_body(m)) == Some(m),
{
    broadcast use vstd::utf8::encode_utf8_valid_utf8, vstd::utf8::encode_utf8_decode_utf8;

    let second: Seq<u8> = match m.payload {
        Some(bytes) => delimited_field(PAYLOAD_FIELD, bytes),
        None => Seq::empty(),
    };
    let third: Seq<u8> = match m.client_msg_id {
        Some(text) => delimited_field(CLIENT_MSG_ID_FIELD, encode_utf8(text)),
        None => Seq::empty(),
    };
    let acc1 = ProtoMessageView { payload_type: m.payload_type, ..empty_envelope() };
    let acc2 = ProtoMessageView { payload: m.payload, ..acc1 };
    assert(envelope_body(m) =~= varint_field(PAYLOAD_TYPE_FIELD, m.payload_type as u64) + (second
        + third));
    lemma_merge_type_field(m.payload_type, second + third, empty_envelope());
    match m.payload {
        Some(bytes) => {
            lemma_merge_delimited_field(PAYLOAD_FIELD, bytes, third, acc1);
        },
        None => {
            assert(second + third =~= third);
        },
    }
    assert(envelope_merge(second + third, acc1) == envelope_merge(third, acc2));
    match m.client_msg_id {
        Some(text) => {
            assert(third =~= delimited_field(CLIENT_MSG_ID_FIELD, encode_utf8(text))
                + Seq::<u8>::empty());
            lemma_merge_delimited_field(
                CLIENT_MSG_ID_FIELD,
                encode_utf8(text),
                Seq::empty(),
                acc2,
            );
        },
        None => {},
    }
    assert(acc2.client_msg_id is None);
}

/// Decoding a frame undoes encoding it, whatever payload bytes the envelope
/// carries (none, or as many as a frame can hold) and whatever follows
/// the frame on the stream.
pub proof fn lemma_frame_roundtrip(m: ProtoMessageView, tail: Seq<u8>)
    requires
        fits_frame(m),
    ensures
        frame_decoding(envelope_frame(m) + tail) == Ok::<(ProtoMessageView, nat), FramingError>(
            (m, envelope_frame(m).len()),
        ),
{
    let body = envelope_body(m);
    let stream = envelope_frame(m) + tail;
    lemma_body_bounds(m);
    lemma_be32_roundtrip(body.len() as u32);
    assert(stream.subrange(0, 4) =~= be32(body.len() as u32));
    assert(stream.subrange(4, (4 + body.len()) as int) =~= body);
    lemma_envelope_roundtrip(m);
}

/// A frame cut short anywhere is reported as truncated.
pub proof fn lemma_frame_truncated(m: ProtoMessageView, cut: int)
    requires
        fits_frame(m),
        0 <= cut < envelope_frame(m).len(),
    ensures
        frame_decoding(envelope_frame(m).subrange(0, cut)) == Err::<
            (ProtoMessageView, nat),
            FramingError,
        >(FramingError::Truncated),
{
    let body = envelope_body(m);
    let short = envelope_frame(m).subrange(0, cut);
    if cut >= 4 {
        lemma_be32_roundtrip(body.len() as u32);
        assert(short.subrange(0, 4) =~= be32(body.len() as u32));
    }
}

/// The parts of a body are no longer than the body.
proof fn lemma_body_bounds(m: ProtoMessageView)
    requires
        fits_frame(m),
    ensures
        m.payload matches Some(bytes) ==> bytes.len() <= u64::MAX,
        m.client_msg_id matches Some(text) ==> encode_utf8(text).len() <= u64::MAX,
{
}

} // verus!
