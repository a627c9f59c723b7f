//! The session: connection life cycle, login handshake, request dispatch and
//! the single slot that pairs a blocking request with its reply.
//!
//! The session never touches the transport. It is told what happened and
//! answers with what is to be done: the caller dials, writes envelopes, waits
//! and invokes the application's callbacks.

use crate::manager::models::{message_decoding, ManagerApiMessage, ManagerApiMessageView, PayloadError};
use crate::manager::registry::{MessageKind, PayloadSchema, TagRegistry};
use crate::manager::serialization::{enum_value, enum_value_of, ProtoMessage, ProtoMessageView};
use crate::wire::field::{delimited_field, put_delimited_field, put_varint_field, varint_field};
use vstd::prelude::*;
use vstd::utf8::encode_utf8;

verus! {

/// How long a caller lets the session settle after it became ready, in
/// milliseconds.
pub const SETTLE_DELAY_MS: u64 = 500;

/// How long a caller sleeps between two looks at the session while it waits
/// for it to become ready, in milliseconds.
pub const POLL_INTERVAL_MS: u64 = 250;

/// Field number of the payload type inside a login request.
pub const AUTH_PAYLOAD_TYPE_FIELD: u32 = 1;

/// Field number of the plant inside a login request.
pub const AUTH_PLANT_ID_FIELD: u32 = 2;

/// Field number of the environment inside a login request.
pub const AUTH_ENVIRONMENT_NAME_FIELD: u32 = 3;

/// Field number of the login inside a login request.
pub const AUTH_LOGIN_FIELD: u32 = 4;

/// Field number of the password digest inside a login request.
pub const AUTH_PASSWORD_HASH_FIELD: u32 = 5;

/// Where the connection stands.
#[derive(Clone, Copy, Debug, PartialEq, Eq, Structural)]
pub enum ConnectionState {
    Disconnected,
    Connecting,
    AwaitingAuth,
    Ready,
}

/// The mutable part of a session.
#[derive(Clone, Copy, Debug, PartialEq, Eq, Structural)]
pub struct Session {
    pub state: ConnectionState,
    /// The transport that is being logged in on or is in use.
    pub transport: Option<u64>,
    /// Whether a blocking request is waiting for the next message.
    pub waiting: bool,
    /// Whether the last login was turned down.
    pub rejected: bool,
}

/// What the login request says.
#[derive(Clone, Debug, PartialEq, Eq)]
pub struct ManagerAuthRequest {
    pub plant_id: String,
    pub environment_name: String,
    pub login: i64,
    /// Digest of the password; the password itself never gets here.
    pub password_hash: String,
}

pub struct ManagerAuthRequestView {
    pub plant_id: Seq<char>,
    pub environment_name: Seq<char>,
    pub login: i64,
    pub password_hash: Seq<char>,
}

impl View for ManagerAuthRequest {
    type V = ManagerAuthRequestView;

    open spec fn view(&self) -> ManagerAuthRequestView {
        ManagerAuthRequestView {
            plant_id: self.plant_id@,
            environment_name: self.environment_name@,
            login: self.login,
            password_hash: self.password_hash@,
        }
    }
}

/// What the caller of `connect` is to do.
#[derive(Clone, Copy, Debug, PartialEq, Eq, Structural)]
pub enum ConnectStep {
    /// Ask the transport to establish a connection.
    Dial,
    /// A connection is being established or is up: nothing to do.
    AlreadyStarted,
}

/// What a transport's end means for the caller.
#[derive(Clone, Copy, Debug, PartialEq, Eq, Structural)]
pub struct Disconnection {
    /// Invoke the application's disconnected callback.
    pub notify: bool,
    /// The error to fail the waiting blocking request with, where one was
    /// waiting.
    pub cancelled_wait: Option<WaitError>,
}

/// Why a connection attempt failed.
#[derive(Clone, Copy, Debug, PartialEq, Eq, Structural)]
pub enum ConnectError {
    AuthRejected,
    ConnectTimeout,
}

/// What a caller who waits for the session to become ready does next.
#[derive(Clone, Copy, Debug, PartialEq, Eq, Structural)]
pub enum ConnectPoll {
    /// Ready: wait `SETTLE_DELAY_MS` once more, then go on.
    Ready,
    /// Not yet: sleep `POLL_INTERVAL_MS` and look again.
    Pending,
    /// Give up.
    Failed(ConnectError),
}

/// Why a request was not sent.
#[derive(Clone, Copy, Debug, PartialEq, Eq, Structural)]
pub enum SendError {
    SendWhileDisconnected,
    /// The registry has no tag for the request.
    UnregisteredPayload,
}

/// Why a blocking request gave no reply.
#[derive(Clone, Copy, Debug, PartialEq, Eq, Structural)]
pub enum WaitError {
    SendWhileDisconnected,
    /// Another blocking request is still waiting.
    CorrelationConflict,
    WaitTimeout,
    /// The transport went away while the request was waiting.
    Disconnected,
}

/// What became of an inbound envelope.
#[derive(Debug, Clone, PartialEq, Eq)]
pub enum Inbound {
    /// Keepalive traffic: nothing to do.
    Swallowed,
    /// A tag outside the registry: nothing to do.
    Unhandled,
    /// A frame to log and drop; the connection stays up.
    Dropped(PayloadError),
    /// The login was accepted: the session is ready, invoke the
    /// application's connected callback.
    Authenticated(ManagerApiMessage),
    /// The login was turned down: fail the connection attempt and close the
    /// transport.
    Rejected(ManagerApiMessage),
    /// The reply that the waiting blocking request gets.
    Resolved(ManagerApiMessage),
    /// A message for the application's message callback.
    Delivered(ManagerApiMessage),
}

pub enum InboundView {
    Swallowed,
    Unhandled,
    Dropped(PayloadError),
    Authenticated(ManagerApiMessageView),
    Rejected(ManagerApiMessageView),
    Resolved(ManagerApiMessageView),
    Delivered(ManagerApiMessageView),
}

impl View for Inbound {
    type V = InboundView;

    open spec fn view(&self) -> InboundView {
        match self {
            Inbound::Swallowed => InboundView::Swallowed,
            Inbound::Unhandled => InboundView::Unhandled,
            Inbound::Dropped(e) => InboundView::Dropped(*e),
            Inbound::Authenticated(m) => InboundView::Authenticated(m@),
            Inbound::Rejected(m) => InboundView::Rejected(m@),
            Inbound::Resolved(m) => InboundView::Resolved(m@),
            Inbound::Delivered(m) => InboundView::Delivered(m@),
        }
    }
}

/// Everything that can happen to a session.
pub enum SessionEvent {
    /// The application asks for a connection.
    Connect,
    /// The application asks for the connection to end.
    Disconnect,
    /// The transport is up.
    TransportConnected(u64),
    /// The transport is gone.
    TransportDisconnected,
    /// An envelope came in.
    Inbound(ProtoMessageView),
    /// The application sends a request and does not wait.
    Send,
    /// The application sends a request and waits for the next message.
    SendAndWait,
    /// The waiting request ran out of time.
    WaitTimedOut,
}

impl Session {
    /// A session before anything happened.
    pub open spec fn initial() -> Session {
        Session {
            state: ConnectionState::Disconnected,
            transport: None,
            waiting: false,
            rejected: false,
        }
    }

    /// What holds of every session: it names a transport exactly while one is
    /// logged in on or in use, only a ready session has a request waiting,
    /// and a rejected login leaves it disconnected.
    pub open spec fn wf(self) -> bool {
        &&& self.transport is Some <==> (self.state is AwaitingAuth || self.state is Ready)
        &&& self.waiting ==> self.state is Ready
        &&& self.rejected ==> self.state is Disconnected
    }

    /// The transport that requests may be sent on.
    pub open spec fn current_transport(self) -> Option<u64> {
        if self.state is Ready {
            self.transport
        } else {
            None
        }
    }

    /// Whether `Inbound(m)` hands the login reply to the handshake.
    pub open spec fn takes_auth_reply(self, registry: TagRegistry, m: ProtoMessageView) -> bool {
        &&& self.state is AwaitingAuth
        &&& registry.kind_of(m.payload_type) != MessageKind::Heartbeat
        &&& message_decoding(registry, m) matches Ok(Some(message))
        &&& message.schema is ManagerAuthRes
    }
}

/// What an inbound envelope does to a session and what becomes of it.
///
/// Keepalive traffic is swallowed before anything else looks at it. An
/// envelope that gives no message changes nothing. While the login is
/// pending, the login reply makes the session ready and an error reply ends
/// the attempt. Otherwise the message fills the slot of a waiting request, or
/// goes to the application where none is waiting.
pub open spec fn inbound_step(registry: TagRegistry, s: Session, m: ProtoMessageView) -> (
    Session,
    InboundView,
) {
    if registry.kind_of(m.payload_type) == MessageKind::Heartbeat {
        (s, InboundView::Swallowed)
    } else {
        match message_decoding(registry, m) {
            Err(e) => (s, InboundView::Dropped(e)),
            Ok(None) => (s, InboundView::Unhandled),
            Ok(Some(message)) => {
                if s.state is AwaitingAuth && message.schema is ManagerAuthRes {
                    (Session { state: ConnectionState::Ready, ..s }, InboundView::Authenticated(message))
                } else if s.state is AwaitingAuth && message.schema is ErrorRes {
                    (
                        Session {
                            state: ConnectionState::Disconnected,
                            transport: None,
                            waiting: false,
                            rejected: true,
                        },
                        InboundView::Rejected(message),
                    )
                } else if s.waiting {
                    (Session { waiting: false, ..s }, InboundView::Resolved(message))
                } else {
                    (s, InboundView::Delivered(message))
                }
            },
        }
    }
}

/// The session after an event.
pub open spec fn session_step(registry: TagRegistry, s: Session, event: SessionEvent) -> Session {
    match event {
        SessionEvent::Connect => if s.state is Disconnected {
            Session { state: ConnectionState::Connecting, rejected: false, ..s }
        } else {
            s
        },
        SessionEvent::Disconnect => if s.state is Connecting {
            Session { state: ConnectionState::Disconnected, ..s }
        } else {
            s
        },
        SessionEvent::TransportConnected(transport) => if s.state is Disconnected
            || s.state is Connecting {
            Session {
                state: ConnectionState::AwaitingAuth,
                transport: Some(transport),
                waiting: false,
                rejected: false,
            }
        } else {
            s
        },
        SessionEvent::TransportDisconnected => if s.state is AwaitingAuth || s.state is Ready {
            Session {
                state: ConnectionState::Disconnected,
                transport: None,
                waiting: false,
                rejected: false,
            }
        } else {
            s
        },
        SessionEvent::Inbound(m) => inbound_step(registry, s, m).0,
        SessionEvent::Send => s,
        SessionEvent::SendAndWait => if s.state is Ready && !s.waiting {
            Session { waiting: true, ..s }
        } else {
            s
        },
        SessionEvent::WaitTimedOut => Session { waiting: false, ..s },
    }
}

/// What `send_and_wait` answers in a given session.
pub open spec fn wait_admission(s: Session) -> Option<WaitError> {
    if !(s.state is Ready) {
        Some(WaitError::SendWhileDisconnected)
    } else if s.waiting {
        Some(WaitError::CorrelationConflict)
    } else {
        None
    }
}

/// A 64-bit signed number as the unsigned number with the same bits.
pub open spec fn int64_value(v: i64) -> u64 {
    if v >= 0 {
        v as u64
    } else {
        (v + 0x1_0000_0000_0000_0000) as u64
    }
}

/// Payload of the login request: its own payload type, the plant, the
/// environment, the login and the password digest, in the order of their
/// field numbers.
pub open spec fn auth_payload(tag: u32, a: ManagerAuthRequestView) -> Seq<u8> {
    varint_field(AUTH_PAYLOAD_TYPE_FIELD, enum_value(tag)) + delimited_field(
        AUTH_PLANT_ID_FIELD,
        encode_utf8(a.plant_id),
    ) + delimited_field(AUTH_ENVIRONMENT_NAME_FIELD, encode_utf8(a.environment_name))
        + varint_field(AUTH_LOGIN_FIELD, int64_value(a.login)) + delimited_field(
        AUTH_PASSWORD_HASH_FIELD,
        encode_utf8(a.password_hash),
    )
}

/// The envelope that opens the handshake.
pub open spec fn auth_envelope(registry: TagRegistry, a: ManagerAuthRequestView)
    -> ProtoMessageView {
    let tag = registry.tag_for(PayloadSchema::ManagerAuthReq).unwrap();
    ProtoMessageView {
        payload_type: tag,
        payload: Some(auth_payload(tag, a)),
        client_msg_id: None,
    }
}

impl ManagerAuthRequest {
    /// A copy with the same content.
    pub fn duplicate(&self) -> (copy: ManagerAuthRequest)
        ensures
            copy@ == self@,
    {
        ManagerAuthRequest {
            plant_id: self.plant_id.clone(),
            environment_name: self.environment_name.clone(),
            login: self.login,
            password_hash: self.password_hash.clone(),
        }
    }

    /// The payload of the login request under payload type `tag`.
    pub fn encode_payload(&self, tag: u32) -> (payload: Vec<u8>)
        ensures
            payload@ == auth_payload(tag, self@),
    {
        let login: u64 = if self.login >= 0 {
            self.login as u64
        } else {
            u64::MAX - ((-(self.login + 1)) as u64)
        };
        let mut payload: Vec<u8> = Vec::new();
        put_varint_field(AUTH_PAYLOAD_TYPE_FIELD, enum_value_of(tag), &mut payload);
        put_delimited_field(AUTH_PLANT_ID_FIELD, self.plant_id.as_str().as_bytes(), &mut payload);
        put_delimited_field(
            AUTH_ENVIRONMENT_NAME_FIELD,
            self.environment_name.as_str().as_bytes(),
            &mut payload,
        );
        put_varint_field(AUTH_LOGIN_FIELD, login, &mut payload);
        put_delimited_field(
            AUTH_PASSWORD_HASH_FIELD,
            self.password_hash.as_str().as_bytes(),
            &mut payload,
        );
        assert(payload@ =~= auth_payload(tag, self@));
        payload
    }
}

/// One logical connection to the gateway.
pub struct ManagerApiCallback {
    registry: TagRegistry,
    auth: ManagerAuthRequest,
    wait_timeout_ms: u64,
    session: Session,
}

impl ManagerApiCallback {
    /// The registry the session classifies by.
    pub closed spec fn registry(self) -> TagRegistry {
        self.registry
    }

    /// What the session logs in with.
    pub closed spec fn auth(self) -> ManagerAuthRequestView {
        self.auth@
    }

    /// How long a caller waits for the session to become ready, in
    /// milliseconds.
    pub closed spec fn wait_timeout_ms(self) -> u64 {
        self.wait_timeout_ms
    }

    /// Where the session stands.
    pub closed spec fn session(self) -> Session {
        self.session
    }

    #[verifier::type_invariant]
    spec fn consistent(self) -> bool {
        self.session.wf()
    }

    /// A session that has not connected yet.
    pub fn new(registry: TagRegistry, auth: ManagerAuthRequest, wait_timeout_ms: u64) -> (callback:
        ManagerApiCallback)
        ensures
            callback.registry() == registry,
            callback.auth() == auth@,
            callback.wait_timeout_ms() == wait_timeout_ms,
            callback.session() == Session::initial(),
    {
        ManagerApiCallback {
            registry,
            auth,
            wait_timeout_ms,
            session: Session {
                state: ConnectionState::Disconnected,
                transport: None,
                waiting: false,
                rejected: false,
            },
        }
    }

    /// The state of the connection.
    pub fn state(&self) -> (state: ConnectionState)
        ensures
            state == self.session().state,
    {
        self.session.state
    }

    /// Whether requests can be sent: the login went through and the
    /// transport is still there.
    pub fn is_connected(&self) -> (connected: bool)
        ensures
            connected == (self.session().state is Ready),
            connected == (self.session().current_transport() is Some),
    {
        proof {
            use_type_invariant(self);
        }
        self.session.state == ConnectionState::Ready
    }

    /// The transport that requests go out on, if any.
    pub fn current_transport(&self) -> (transport: Option<u64>)
        ensures
            transport == self.session().current_transport(),
    {
        if self.session.state == ConnectionState::Ready {
            self.session.transport
        } else {
            None
        }
    }

    /// The tag that carries a schema, if the registry names one.
    pub fn tag_of(&self, schema: PayloadSchema) -> (tag: Option<u32>)
        ensures
            tag == self.registry().tag_for(schema),
    {
        self.registry.tag_of(schema)
    }

    /// The tag of the close-position request.
    pub fn close_position_request_tag(&self) -> (tag: u32)
        ensures
            self.registry().tag_for(PayloadSchema::ManagerClosePositionReq) == Some(tag),
    {
        self.registry.close_position_request_tag()
    }

    /// The tag of the trader-list request.
    pub fn trader_list_request_tag(&self) -> (tag: u32)
        ensures
            self.registry().tag_for(PayloadSchema::TraderListReq) == Some(tag),
    {
        self.registry.trader_list_request_tag()
    }

    /// Whether a blocking request is waiting for its reply.
    pub fn is_waiting(&self) -> (waiting: bool)
        ensures
            waiting == self.session().waiting,
    {
        self.session.waiting
    }

    /// The application asks for a connection. Only a disconnected session
    /// starts one.
    pub fn connect(&mut self) -> (step: ConnectStep)
        ensures
            final(self).session() == session_step(
                old(self).registry(),
                old(self).session(),
                SessionEvent::Connect,
            ),
            step == (if old(self).session().state is Disconnected {
                ConnectStep::Dial
            } else {
                ConnectStep::AlreadyStarted
            }),
            final(self).registry() == old(self).registry(),
            final(self).auth() == old(self).auth(),
            final(self).wait_timeout_ms() == old(self).wait_timeout_ms(),
    {
        proof {
            use_type_invariant(&*self);
        }
        if self.session.state == ConnectionState::Disconnected {
            self.session = Session {
                state: ConnectionState::Connecting,
                transport: self.session.transport,
                waiting: self.session.waiting,
                rejected: false,
            };
            ConnectStep::Dial
        } else {
            ConnectStep::AlreadyStarted
        }
    }

    /// The application asks for the connection to end. Answers whether the
    /// transport is to be stopped. A session with a transport stays as it is
    /// until the transport reports that it is gone.
    pub fn disconnect(&mut self) -> (stop: bool)
        ensures
            final(self).session() == session_step(
                old(self).registry(),
                old(self).session(),
                SessionEvent::Disconnect,
            ),
            stop == !(old(self).session().state is Disconnected),
            final(self).registry() == old(self).registry(),
            final(self).auth() == old(self).auth(),
            final(self).wait_timeout_ms() == old(self).wait_timeout_ms(),
    {
        proof {
            use_type_invariant(&*self);
        }
        match self.session.state {
            ConnectionState::Disconnected => false,
            ConnectionState::Connecting => {
                self.session = Session {
                    state: ConnectionState::Disconnected,
                    transport: self.session.transport,
                    waiting: self.session.waiting,
                    rejected: self.session.rejected,
                };
                true
            },
            _ => true,
        }
    }

    /// The transport is up. A session without a transport starts the
    /// handshake on it: the answer is the login request, the one envelope to
    /// write before the session is ready. A session that has a transport
    /// ignores the notification.
    pub fn connected(&mut self, transport: u64) -> (request: Option<ProtoMessage>)
        ensures
            final(self).session() == session_step(
                old(self).registry(),
                old(self).session(),
                SessionEvent::TransportConnected(transport),
            ),
            match request {
                Some(envelope) => (old(self).session().state is Disconnected || old(
                    self,
                ).session().state is Connecting) && envelope@ == auth_envelope(
                    old(self).registry(),
                    old(self).auth(),
                ),
                None => old(self).session().state is AwaitingAuth || old(self).session().state
                    is Ready,
            },
            final(self).registry() == old(self).registry(),
            final(self).auth() == old(self).auth(),
            final(self).wait_timeout_ms() == old(self).wait_timeout_ms(),
    {
        proof {
            use_type_invariant(&*self);
        }
        match self.session.state {
            ConnectionState::Disconnected | ConnectionState::Connecting => {
                let tag = self.registry.auth_request_tag();
                let payload = self.auth.encode_payload(tag);
                self.session = Session {
                    state: ConnectionState::AwaitingAuth,
                    transport: Some(transport),
                    waiting: false,
                    rejected: false,
                };
                Some(ProtoMessage::new(payload, tag))
            },
            _ => None,
        }
    }

    /// The transport is gone. A session that had one becomes disconnected at
    /// once; the application is to be told, and a waiting request is to be
    /// failed there and then.
    pub fn disconnected(&mut self) -> (outcome: Disconnection)
        ensures
            final(self).session() == session_step(
                old(self).registry(),
                old(self).session(),
                SessionEvent::TransportDisconnected,
            ),
            outcome.notify == (old(self).session().state is AwaitingAuth || old(
                self,
            ).session().state is Ready),
            outcome.cancelled_wait == (if old(self).session().waiting {
                Some(WaitError::Disconnected)
            } else {
                None
            }),
            final(self).registry() == old(self).registry(),
            final(self).auth() == old(self).auth(),
            final(self).wait_timeout_ms() == old(self).wait_timeout_ms(),
    {
        proof {
            use_type_invariant(&*self);
        }
        match self.session.state {
            ConnectionState::AwaitingAuth | ConnectionState::Ready => {
                let cancelled_wait = if self.session.waiting {
                    Some(WaitError::Disconnected)
                } else {
                    None
                };
                self.session = Session {
                    state: ConnectionState::Disconnected,
                    transport: None,
                    waiting: false,
                    rejected: false,
                };
                Disconnection { notify: true, cancelled_wait }
            },
            _ => Disconnection { notify: false, cancelled_wait: None },
        }
    }

    /// An envelope came in.
    pub fn payload(&mut self, contract: ProtoMessage) -> (outcome: Inbound)
        ensures
            (final(self).session(), outcome@) == inbound_step(
                old(self).registry(),
                old(self).session(),
                contract@,
            ),
            final(self).session() == session_step(
                old(self).registry(),
                old(self).session(),
                SessionEvent::Inbound(contract@),
            ),
            final(self).registry() == old(self).registry(),
            final(self).auth() == old(self).auth(),
            final(self).wait_timeout_ms() == old(self).wait_timeout_ms(),
    {
        proof {
            use_type_invariant(&*self);
        }
        if contract.is_keepalive(&self.registry) {
            return Inbound::Swallowed;
        }
        let message = match ManagerApiMessage::try_from_proto(contract, &self.registry) {
            Err(e) => {
                return Inbound::Dropped(e);
            },
            Ok(None) => {
                return Inbound::Unhandled;
            },
            Ok(Some(message)) => message,
        };
        let schema = message.schema();
        if self.session.state == ConnectionState::AwaitingAuth && schema
            == PayloadSchema::ManagerAuthRes {
            self.session = Session {
                state: ConnectionState::Ready,
                transport: self.session.transport,
                waiting: self.session.waiting,
                rejected: self.session.rejected,
            };
            Inbound::Authenticated(message)
        } else if self.session.state == ConnectionState::AwaitingAuth && schema
            == PayloadSchema::ErrorRes {
            self.session = Session {
                state: ConnectionState::Disconnected,
                transport: None,
                waiting: false,
                rejected: true,
            };
            Inbound::Rejected(message)
        } else if self.session.waiting {
            self.session = Session {
                state: self.session.state,
                transport: self.session.transport,
                waiting: false,
                rejected: self.session.rejected,
            };
            Inbound::Resolved(message)
        } else {
            Inbound::Delivered(message)
        }
    }

    /// Wraps a request for sending. Only a ready session sends.
    pub fn send(&self, payload: Vec<u8>, payload_type: u32) -> (r: Result<ProtoMessage, SendError>)
        ensures
            match r {
                Ok(envelope) => self.session().state is Ready && envelope@ == (ProtoMessageView {
                    payload_type,
                    payload: Some(payload@),
                    client_msg_id: None,
                }),
                Err(e) => !(self.session().state is Ready) && e == SendError::SendWhileDisconnected,
            },
    {
        if self.session.state == ConnectionState::Ready {
            Ok(ProtoMessage::new(payload, payload_type))
        } else {
            Err(SendError::SendWhileDisconnected)
        }
    }

    /// Wraps a request for sending and reserves the slot for its reply: the
    /// next message that is not keepalive traffic goes to the caller instead
    /// of the application. Fails at once where the session is not ready or
    /// the slot is taken, and then changes nothing.
    pub fn send_and_wait(&mut self, payload: Vec<u8>, payload_type: u32) -> (r: Result<
        ProtoMessage,
        WaitError,
    >)
        ensures
            final(self).session() == session_step(
                old(self).registry(),
                old(self).session(),
                SessionEvent::SendAndWait,
            ),
            match wait_admission(old(self).session()) {
                Some(e) => r matches Err(got) && got == e && final(self).session() == old(
                    self,
                ).session(),
                None => r matches Ok(envelope) && envelope@ == (ProtoMessageView {
                    payload_type,
                    payload: Some(payload@),
                    client_msg_id: None,
                }) && final(self).session().waiting,
            },
            final(self).registry() == old(self).registry(),
            final(self).auth() == old(self).auth(),
            final(self).wait_timeout_ms() == old(self).wait_timeout_ms(),
    {
        proof {
            use_type_invariant(&*self);
        }
        if self.session.state != ConnectionState::Ready {
            return Err(WaitError::SendWhileDisconnected);
        }
        if self.session.waiting {
            return Err(WaitError::CorrelationConflict);
        }
        self.session = Session {
            state: self.session.state,
            transport: self.session.transport,
            waiting: true,
            rejected: self.session.rejected,
        };
        Ok(ProtoMessage::new(payload, payload_type))
    }

    /// The waiting request ran out of time. Frees the slot; the answer is the
    /// error for the caller, or nothing where no request was waiting any
    /// more.
    pub fn wait_timed_out(&mut self) -> (error: Option<WaitError>)
        ensures
            final(self).session() == session_step(
                old(self).registry(),
                old(self).session(),
                SessionEvent::WaitTimedOut,
            ),
            error == (if old(self).session().waiting {
                Some(WaitError::WaitTimeout)
            } else {
                None
            }),
            final(self).registry() == old(self).registry(),
            final(self).auth() == old(self).auth(),
            final(self).wait_timeout_ms() == old(self).wait_timeout_ms(),
    {
        proof {
            use_type_invariant(&*self);
        }
        if self.session.waiting {
            self.session = Session {
                state: self.session.state,
                transport: self.session.transport,
                waiting: false,
                rejected: self.session.rejected,
            };
            Some(WaitError::WaitTimeout)
        } else {
            None
        }
    }

    /// What a caller does who has waited `elapsed_ms` for the session to
    /// become ready.
    pub fn wait_until_connected(&self, elapsed_ms: u64) -> (poll: ConnectPoll)
        ensures
            poll == (if self.session().state is Ready {
                ConnectPoll::Ready
            } else if self.session().rejected {
                ConnectPoll::Failed(ConnectError::AuthRejected)
            } else if elapsed_ms > self.wait_timeout_ms() {
                ConnectPoll::Failed(ConnectError::ConnectTimeout)
            } else {
                ConnectPoll::Pending
            }),
    {
        if self.session.state == ConnectionState::Ready {
            ConnectPoll::Ready
        } else if self.session.rejected {
            ConnectPoll::Failed(ConnectError::AuthRejected)
        } else if elapsed_ms > self.wait_timeout_ms {
            ConnectPoll::Failed(ConnectError::ConnectTimeout)
        } else {
            ConnectPoll::Pending
        }
    }
}

/// Every event leaves a well-formed session well-formed.
pub proof fn lemma_step_keeps_wf(registry: TagRegistry, s: Session, event: SessionEvent)
    requires
        s.wf(),
    ensures
        session_step(registry, s, event).wf(),
{
}

/// From a session that is connecting, the transport coming up
/// leads to the login being awaited on that transport; until the login is
/// answered no request is admitted, with or without waiting; and the login
/// request itself is classified as a request.
pub proof fn lemma_handshake_starts(registry: TagRegistry, s: Session, transport: u64)
    requires
        registry.sound(),
        s.wf(),
        s.state is Connecting,
    ensures
        ({
            let next = session_step(registry, s, SessionEvent::TransportConnected(transport));
            &&& next.state is AwaitingAuth
            &&& next.transport == Some(transport)
            &&& next.current_transport() is None
            &&& wait_admission(next) == Some(WaitError::SendWhileDisconnected)
            &&& session_step(registry, next, SessionEvent::Send) == next
            &&& session_step(registry, next, SessionEvent::SendAndWait) == next
        }),
        registry.tag_for(PayloadSchema::ManagerAuthReq) is Some,
        registry.kind_of(registry.tag_for(PayloadSchema::ManagerAuthReq).unwrap())
            == MessageKind::Request,
{
    crate::manager::registry::lemma_tag_selects_schema(
        registry.housekeeping(),
        registry.domain(),
        PayloadSchema::ManagerAuthReq,
    );
}

/// A session becomes ready in one way only: the login reply arrives while the
/// login is awaited.
pub proof fn lemma_ready_only_after_auth(registry: TagRegistry, s: Session, event: SessionEvent)
    requires
        s.wf(),
        !(s.state is Ready),
        session_step(registry, s, event).state is Ready,
    ensures
        event matches SessionEvent::Inbound(m) && s.takes_auth_reply(registry, m),
        session_step(registry, s, event).transport == s.transport,
{
}

/// The login reply, arriving while the login is awaited, makes the session
/// ready on the transport the login went out on.
pub proof fn lemma_auth_reply_makes_ready(registry: TagRegistry, s: Session, m: ProtoMessageView)
    requires
        s.wf(),
        s.takes_auth_reply(registry, m),
    ensures
        inbound_step(registry, s, m).0.state is Ready,
        inbound_step(registry, s, m).0.current_transport() == s.transport,
        inbound_step(registry, s, m).1 is Authenticated,
{
}

/// Requests go out exactly while the session has a current transport.
pub proof fn lemma_send_needs_transport(s: Session)
    requires
        s.wf(),
    ensures
        s.current_transport() is Some <==> s.state is Ready,
        wait_admission(s) is None ==> s.current_transport() is Some,
{
}

/// While a blocking request is waiting, a second one is turned
/// down with `CorrelationConflict` and the session stays as it is.
pub proof fn lemma_single_flight(registry: TagRegistry, s: Session)
    requires
        s.wf(),
        s.waiting,
    ensures
        wait_admission(s) == Some(WaitError::CorrelationConflict),
        session_step(registry, s, SessionEvent::SendAndWait) == s,
{
}

/// Once a waiting request has timed out, the next blocking request is
/// admitted.
pub proof fn lemma_timeout_releases_slot(registry: TagRegistry, s: Session)
    requires
        s.wf(),
        s.waiting,
    ensures
        wait_admission(session_step(registry, s, SessionEvent::WaitTimedOut)) is None,
{
}

/// When the transport goes away under a waiting request, the slot is freed
/// in the same step and the session has no transport any more.
pub proof fn lemma_disconnect_cancels_wait(registry: TagRegistry, s: Session)
    requires
        s.wf(),
        s.waiting,
    ensures
        ({
            let next = session_step(registry, s, SessionEvent::TransportDisconnected);
            &&& next.state is Disconnected
            &&& !next.waiting
            &&& next.current_transport() is None
            &&& wait_admission(next) == Some(WaitError::SendWhileDisconnected)
        }),
{
}

/// Keepalive traffic changes nothing and reaches neither the application nor
/// the slot of a waiting request.
pub proof fn lemma_keepalive_excluded(registry: TagRegistry, s: Session, m: ProtoMessageView)
    requires
        registry.kind_of(m.payload_type) == MessageKind::Heartbeat,
    ensures
        inbound_step(registry, s, m) == (s, InboundView::Swallowed),
{
}

/// What reaches the application or a waiting request is never keepalive
/// traffic, and is the message that the envelope decodes to.
pub proof fn lemma_delivery_is_decoded(registry: TagRegistry, s: Session, m: ProtoMessageView)
    requires
        registry.sound(),
    ensures
        match inbound_step(registry, s, m).1 {
            InboundView::Delivered(message) | InboundView::Resolved(message) => {
                &&& registry.kind_of(m.payload_type) != MessageKind::Heartbeat
                &&& message_decoding(registry, m) == Ok::<
                    Option<ManagerApiMessageView>,
                    PayloadError,
                >(Some(message))
                &&& message.kind() == registry.kind_of(m.payload_type)
            },
            _ => true,
        },
{
    crate::manager::registry::lemma_entry_valid(
        registry.housekeeping(),
        registry.domain(),
        m.payload_type,
    );
}

} // verus!
