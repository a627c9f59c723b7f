//! The messages that the gateway sends, as the application sees them.
//!
//! A message keeps its payload as the bytes that came in, checked to be a
//! well-formed sequence of fields; which fields a payload has is between the
//! application and the gateway.

use crate::manager::registry::{MessageKind, PayloadSchema, TagEntry, TagRegistry};
use crate::manager::serialization::{ProtoMessage, ProtoMessageView};
use crate::wire::field::{check_fields, fields_well_formed};
use vstd::prelude::*;

verus! {

/// An inbound message, by kind.
#[derive(Debug, Clone, PartialEq, Eq)]
pub enum ManagerApiMessage {
    Response(ManagerApiResponse),
    Event(ManagerApiEvent),
    Error(ManagerApiError),
}

/// Something went wrong at the gateway.
#[derive(Debug, Clone, PartialEq, Eq)]
pub enum ManagerApiError {
    ErrorRes(Vec<u8>),
    OrderErrorEvent(Vec<u8>),
}

/// The gateway answers a request.
#[derive(Debug, Clone, PartialEq, Eq)]
pub enum ManagerApiResponse {
    ManagerAuthRes(Vec<u8>),
    TraderListRes(Vec<u8>),
    OrderDetailsRes(Vec<u8>),
    BalanceHistoryRes(Vec<u8>),
}

/// The gateway reports something nobody asked for.
#[derive(Debug, Clone, PartialEq, Eq)]
pub enum ManagerApiEvent {
    HelloEvent,
    ExecutionEvent(Vec<u8>),
    TraderChangedEvent(Vec<u8>),
    TraderLogonEvent(Vec<u8>),
    TraderLogoutEvent(Vec<u8>),
}

/// Why an envelope with a known tag gave no message.
#[derive(Clone, Copy, Debug, PartialEq, Eq, Structural)]
pub enum PayloadError {
    /// The tag is known, but messages of it are not taken apart here.
    NotImplemented(u32),
    /// The tag calls for a payload and the envelope has none.
    MissingPayload(u32),
    /// The payload is not a sequence of well-formed fields.
    MalformedPayload(u32),
}

/// What a message is: which payload it carries, and the payload.
pub struct ManagerApiMessageView {
    pub schema: PayloadSchema,
    pub payload: Seq<u8>,
}

impl ManagerApiMessageView {
    /// The kind of the message.
    pub open spec fn kind(self) -> MessageKind {
        self.schema.kind()
    }
}

impl View for ManagerApiMessage {
    type V = ManagerApiMessageView;

    open spec fn view(&self) -> ManagerApiMessageView {
        match self {
            ManagerApiMessage::Response(ManagerApiResponse::ManagerAuthRes(p)) => {
                ManagerApiMessageView { schema: PayloadSchema::ManagerAuthRes, payload: p@ }
            },
            ManagerApiMessage::Response(ManagerApiResponse::TraderListRes(p)) => {
                ManagerApiMessageView { schema: PayloadSchema::TraderListRes, payload: p@ }
            },
            ManagerApiMessage::Response(ManagerApiResponse::OrderDetailsRes(p)) => {
                ManagerApiMessageView { schema: PayloadSchema::OrderDetailsRes, payload: p@ }
            },
            ManagerApiMessage::Response(ManagerApiResponse::BalanceHistoryRes(p)) => {
                ManagerApiMessageView { schema: PayloadSchema::BalanceHistoryRes, payload: p@ }
            },
            ManagerApiMessage::Event(ManagerApiEvent::HelloEvent) => {
                ManagerApiMessageView { schema: PayloadSchema::HelloEvent, payload: Seq::empty() }
            },
            ManagerApiMessage::Event(ManagerApiEvent::ExecutionEvent(p)) => {
                ManagerApiMessageView { schema: PayloadSchema::ExecutionEvent, payload: p@ }
            },
            ManagerApiMessage::Event(ManagerApiEvent::TraderChangedEvent(p)) => {
                ManagerApiMessageView { schema: PayloadSchema::TraderChangedEvent, payload: p@ }
            },
            ManagerApiMessage::Event(ManagerApiEvent::TraderLogonEvent(p)) => {
                ManagerApiMessageView { schema: PayloadSchema::TraderLogonEvent, payload: p@ }
            },
            ManagerApiMessage::Event(ManagerApiEvent::TraderLogoutEvent(p)) => {
                ManagerApiMessageView { schema: PayloadSchema::TraderLogoutEvent, payload: p@ }
            },
            ManagerApiMessage::Error(ManagerApiError::ErrorRes(p)) => {
                ManagerApiMessageView { schema: PayloadSchema::ErrorRes, payload: p@ }
            },
            ManagerApiMessage::Error(ManagerApiError::OrderErrorEvent(p)) => {
                ManagerApiMessageView { schema: PayloadSchema::OrderErrorEvent, payload: p@ }
            },
        }
    }
}

/// Whether messages with this payload are handed on with their payload.
pub open spec fn carries_payload(schema: PayloadSchema) -> bool {
    match schema {
        PayloadSchema::ErrorRes => true,
        PayloadSchema::OrderErrorEvent => true,
        PayloadSchema::ExecutionEvent => true,
        PayloadSchema::ManagerAuthRes => true,
        PayloadSchema::OrderDetailsRes => true,
        PayloadSchema::TraderListRes => true,
        PayloadSchema::BalanceHistoryRes => true,
        PayloadSchema::TraderChangedEvent => true,
        PayloadSchema::TraderLogonEvent => true,
        PayloadSchema::TraderLogoutEvent => true,
        _ => false,
    }
}

/// What an envelope means under a registry.
///
/// A tag that the registry does not list gives nothing, and so does keepalive
/// traffic: neither is an error. The hello event has no payload to look at.
/// Any other tag with a schema of its own gives a message with the
/// envelope's payload, which has to be there and be well-formed. What is left
/// are known tags that are not taken apart.
pub open spec fn message_decoding(registry: TagRegistry, m: ProtoMessageView) -> Result<
    Option<ManagerApiMessageView>,
    PayloadError,
> {
    match registry.entry(m.payload_type) {
        None => Ok(None),
        Some(entry) => {
            if entry.kind == MessageKind::Heartbeat {
                Ok(None)
            } else {
                match entry.schema {
                    Some(PayloadSchema::HelloEvent) => Ok(
                        Some(
                            ManagerApiMessageView {
                                schema: PayloadSchema::HelloEvent,
                                payload: Seq::empty(),
                            },
                        ),
                    ),
                    Some(schema) if carries_payload(schema) => match m.payload {
                        None => Err(PayloadError::MissingPayload(m.payload_type)),
                        Some(bytes) => if fields_well_formed(bytes) {
                            Ok(Some(ManagerApiMessageView { schema, payload: bytes }))
                        } else {
                            Err(PayloadError::MalformedPayload(m.payload_type))
                        },
                    },
                    _ => Err(PayloadError::NotImplemented(m.payload_type)),
                }
            }
        },
    }
}

impl ManagerApiMessage {
    /// The message with the given payload, for the schemas that carry one.
    pub fn with_payload(schema: PayloadSchema, payload: Vec<u8>) -> (m: Option<ManagerApiMessage>)
        ensures
            m is Some <==> carries_payload(schema),
            m matches Some(message) ==> message@ == (ManagerApiMessageView {
                schema,
                payload: payload@,
            }),
    {
        match schema {
            PayloadSchema::ErrorRes => Some(
                ManagerApiMessage::Error(ManagerApiError::ErrorRes(payload)),
            ),
            PayloadSchema::OrderErrorEvent => Some(
                ManagerApiMessage::Error(ManagerApiError::OrderErrorEvent(payload)),
            ),
            PayloadSchema::ExecutionEvent => Some(
                ManagerApiMessage::Event(ManagerApiEvent::ExecutionEvent(payload)),
            ),
            PayloadSchema::ManagerAuthRes => Some(
                ManagerApiMessage::Response(ManagerApiResponse::ManagerAuthRes(payload)),
            ),
            PayloadSchema::OrderDetailsRes => Some(
                ManagerApiMessage::Response(ManagerApiResponse::OrderDetailsRes(payload)),
            ),
            PayloadSchema::TraderListRes => Some(
                ManagerApiMessage::Response(ManagerApiResponse::TraderListRes(payload)),
            ),
            PayloadSchema::BalanceHistoryRes => Some(
                ManagerApiMessage::Response(ManagerApiResponse::BalanceHistoryRes(payload)),
            ),
            PayloadSchema::TraderChangedEvent => Some(
                ManagerApiMessage::Event(ManagerApiEvent::TraderChangedEvent(payload)),
            ),
            PayloadSchema::TraderLogonEvent => Some(
                ManagerApiMessage::Event(ManagerApiEvent::TraderLogonEvent(payload)),
            ),
            PayloadSchema::TraderLogoutEvent => Some(
                ManagerApiMessage::Event(ManagerApiEvent::TraderLogoutEvent(payload)),
            ),
            _ => None,
        }
    }

    /// Which payload the message carries.
    pub fn schema(&self) -> (schema: PayloadSchema)
        ensures
            schema == self@.schema,
    {
        match self {
            ManagerApiMessage::Response(ManagerApiResponse::ManagerAuthRes(_)) => {
                PayloadSchema::ManagerAuthRes
            },
            ManagerApiMessage::Response(ManagerApiResponse::TraderListRes(_)) => {
                PayloadSchema::TraderListRes
            },
            ManagerApiMessage::Response(ManagerApiResponse::OrderDetailsRes(_)) => {
                PayloadSchema::OrderDetailsRes
            },
            ManagerApiMessage::Response(ManagerApiResponse::BalanceHistoryRes(_)) => {
                PayloadSchema::BalanceHistoryRes
            },
            ManagerApiMessage::Event(ManagerApiEvent::HelloEvent) => PayloadSchema::HelloEvent,
            ManagerApiMessage::Event(ManagerApiEvent::ExecutionEvent(_)) => {
                PayloadSchema::ExecutionEvent
            },
            ManagerApiMessage::Event(ManagerApiEvent::TraderChangedEvent(_)) => {
                PayloadSchema::TraderChangedEvent
            },
            ManagerApiMessage::Event(ManagerApiEvent::TraderLogonEvent(_)) => {
                PayloadSchema::TraderLogonEvent
            },
            ManagerApiMessage::Event(ManagerApiEvent::TraderLogoutEvent(_)) => {
                PayloadSchema::TraderLogoutEvent
            },
            ManagerApiMessage::Error(ManagerApiError::ErrorRes(_)) => PayloadSchema::ErrorRes,
            ManagerApiMessage::Error(ManagerApiError::OrderErrorEvent(_)) => {
                PayloadSchema::OrderErrorEvent
            },
        }
    }

    /// The kind of the message.
    pub fn kind(&self) -> (kind: MessageKind)
        ensures
            kind == self@.kind(),
    {
        self.schema().message_kind()
    }

    /// The payload as it came in; empty for the hello event.
    pub fn payload(&self) -> (bytes: &[u8])
        ensures
            bytes@ == self@.payload,
    {
        match self {
            ManagerApiMessage::Response(ManagerApiResponse::ManagerAuthRes(p)) => p.as_slice(),
            ManagerApiMessage::Response(ManagerApiResponse::TraderListRes(p)) => p.as_slice(),
            ManagerApiMessage::Response(ManagerApiResponse::OrderDetailsRes(p)) => p.as_slice(),
            ManagerApiMessage::Response(ManagerApiResponse::BalanceHistoryRes(p)) => p.as_slice(),
            ManagerApiMessage::Event(ManagerApiEvent::HelloEvent) => {
                let empty: &[u8] = &[];
                empty
            },
            ManagerApiMessage::Event(ManagerApiEvent::ExecutionEvent(p)) => p.as_slice(),
            ManagerApiMessage::Event(ManagerApiEvent::TraderChangedEvent(p)) => p.as_slice(),
            ManagerApiMessage::Event(ManagerApiEvent::TraderLogonEvent(p)) => p.as_slice(),
            ManagerApiMessage::Event(ManagerApiEvent::TraderLogoutEvent(p)) => p.as_slice(),
            ManagerApiMessage::Error(ManagerApiError::ErrorRes(p)) => p.as_slice(),
            ManagerApiMessage::Error(ManagerApiError::OrderErrorEvent(p)) => p.as_slice(),
        }
    }

    /// Turns an envelope into the message it means under `registry`.
    pub fn try_from_proto(proto: ProtoMessage, registry: &TagRegistry) -> (r: Result<
        Option<ManagerApiMessage>,
        PayloadError,
    >)
        ensures
            match message_decoding(*registry, proto@) {
                Ok(Some(view)) => r matches Ok(Some(message)) && message@ == view,
                Ok(None) => r matches Ok(None),
                Err(e) => r matches Err(got) && got == e,
            },
    {
        let payload_type = proto.payload_type;
        let entry: TagEntry = match registry.lookup(payload_type) {
            None => {
                return Ok(None);
            },
            Some(entry) => entry,
        };
        if entry.kind == MessageKind::Heartbeat {
            return Ok(None);
        }
        let schema = match entry.schema {
            None => {
                return Err(PayloadError::NotImplemented(payload_type));
            },
            Some(schema) => schema,
        };
        if schema == PayloadSchema::HelloEvent {
            return Ok(Some(ManagerApiMessage::Event(ManagerApiEvent::HelloEvent)));
        }
        if !has_payload(schema) {
            return Err(PayloadError::NotImplemented(payload_type));
        }
        let bytes = match proto.payload {
            None => {
                return Err(PayloadError::MissingPayload(payload_type));
            },
            Some(bytes) => bytes,
        };
        if !check_fields(bytes.as_slice()) {
            return Err(PayloadError::MalformedPayload(payload_type));
        }
        Ok(ManagerApiMessage::with_payload(schema, bytes))
    }
}

/// Whether messages with this payload are handed on with their payload.
pub fn has_payload(schema: PayloadSchema) -> (yes: bool)
    ensures
        yes == carries_payload(schema),
{
    match schema {
        PayloadSchema::ErrorRes => true,
        PayloadSchema::OrderErrorEvent => true,
        PayloadSchema::ExecutionEvent => true,
        PayloadSchema::ManagerAuthRes => true,
        PayloadSchema::OrderDetailsRes => true,
        PayloadSchema::TraderListRes => true,
        PayloadSchema::BalanceHistoryRes => true,
        PayloadSchema::TraderChangedEvent => true,
        PayloadSchema::TraderLogonEvent => true,
        PayloadSchema::TraderLogoutEvent => true,
        _ => false,
    }
}

/// Every payload that has a decode path comes through unchanged: an envelope
/// made of a listed tag and a well-formed payload decodes to the message of
/// the tag's schema with exactly that payload.
pub proof fn lemma_payload_roundtrip(
    registry: TagRegistry,
    tag: u32,
    schema: PayloadSchema,
    payload: Seq<u8>,
)
    requires
        registry.sound(),
        registry.schema_of(tag) == Some(schema),
        carries_payload(schema),
        fields_well_formed(payload),
    ensures
        message_decoding(
            registry,
            ProtoMessageView { payload_type: tag, payload: Some(payload), client_msg_id: None },
        ) == Ok::<Option<ManagerApiMessageView>, PayloadError>(
            Some(ManagerApiMessageView { schema, payload }),
        ),
{
    crate::manager::registry::lemma_entry_valid(registry.housekeeping(), registry.domain(), tag);
}

/// Keepalive traffic and tags outside the registry never give a message and
/// never give an error.
pub proof fn lemma_nothing_from_keepalive(registry: TagRegistry, m: ProtoMessageView)
    requires
        registry.sound(),
        registry.kind_of(m.payload_type) == MessageKind::Heartbeat || registry.kind_of(
            m.payload_type,
        ) == MessageKind::Unrecognized,
    ensures
        message_decoding(registry, m) == Ok::<Option<ManagerApiMessageView>, PayloadError>(None),
{
    crate::manager::registry::lemma_entry_valid(
        registry.housekeeping(),
        registry.domain(),
        m.payload_type,
    );
}

} // verus!
