//! The client that an application holds: configuration, credentials and the
//! session, with the operations the application calls.

use crate::manager::callback::{
    session_step, ConnectPoll, ConnectStep, Disconnection, Inbound, InboundView,
    ManagerApiCallback, ManagerAuthRequest, SendError, Session, SessionEvent, WaitError,
};
use crate::manager::models::ManagerApiMessage;
use crate::manager::registry::{PayloadSchema, TagRegistry};
use crate::manager::requests::ProtoManagerClosePositionReq;
use crate::manager::serialization::{ProtoMessage, ProtoMessageView};
use crate::rest::creds::ManagerCreds;
use vstd::prelude::*;
use vstd::string::StrSliceExecFns;

verus! {

/// How long a client waits for the login to go through, in milliseconds.
pub const CONNECT_WAIT_MS: u64 = 30_000;

/// Seconds without traffic after which the transport gives a connection up.
pub const DISCONNECT_TIMEOUT_SECS: u64 = 40;

/// Seconds the transport lets pass before it dials again.
pub const RECONNECT_TIMEOUT_SECS: u64 = 20;

/// Seconds between two pings.
pub const SECONDS_TO_PING: usize = 10;

/// Where the gateway is and which plant and environment to log into.
pub trait ManagerApiConfig {
    /// Host and port, separated by a colon.
    fn get_url(&self) -> String;

    fn get_plant_id(&self) -> String;

    fn get_env_name(&self) -> String;
}

/// What the application implements to hear from the session.
pub trait ManagerApiCallbackHandler {
    fn on_connected(&mut self);

    fn on_disconnected(&mut self);

    fn on_message(&mut self, message: ManagerApiMessage);
}

/// Configuration and credentials, side by side.
pub struct ManagerApiConfigWrapper<C: ManagerApiConfig> {
    pub config: C,
    pub creds: ManagerCreds,
}

/// How the transport is to be set up.
#[derive(Clone, Copy, Debug, PartialEq, Eq, Structural)]
pub struct TransportSettings {
    pub disconnect_timeout_secs: u64,
    pub reconnect_timeout_secs: u64,
    pub seconds_to_ping: usize,
}

/// What the caller of `connect` is to do, and with what.
pub struct ConnectPlan {
    pub step: ConnectStep,
    /// Host and port to dial.
    pub host_port: String,
    /// Name to check the gateway's certificate against.
    pub domain: String,
    pub settings: TransportSettings,
}

/// Index of the first colon in `s` at or after `from`, or the length of `s`
/// where there is none.
pub open spec fn colon_from(s: Seq<char>, from: int) -> int
    decreases s.len() - from,
{
    if from < 0 || from >= s.len() {
        s.len() as int
    } else if s[from] == ':' {
        from
    } else {
        colon_from(s, from + 1)
    }
}

/// The host of `url`: what stands before its first colon, or all of it.
pub open spec fn domain_spec(url: Seq<char>) -> Seq<char> {
    url.take(colon_from(url, 0))
}

/// The host of `url`: what stands before its first colon, or all of it.
pub fn domain_of(url: &str) -> (domain: String)
    ensures
        domain@ == domain_spec(url@),
{
    let len = url.unicode_len();
    let mut i: usize = 0;
    while i < len && url.get_char(i) != ':'
        invariant
            len == url@.len(),
            i <= len,
            colon_from(url@, 0) == colon_from(url@, i as int),
        decreases len - i,
    {
        i += 1;
    }
    url.substring_char(0, i).to_owned()
}

impl<C: ManagerApiConfig> ManagerApiConfigWrapper<C> {
    /// The host the configuration names: the configuration is asked for its
    /// address, and the host is what stands before the first colon of the
    /// answer. Whatever the configuration answers, the host holds no colon.
    pub fn get_domain(&self) -> (domain: String)
        ensures
            exists|url: String|
                call_ensures(C::get_url, (&self.config,), url) && domain@ == domain_spec(url@),
            forall|i: int| 0 <= i < domain@.len() ==> domain@[i] != ':',
    {
        let url = self.config.get_url();
        proof {
            lemma_domain_has_no_colon(url@, 0);
        }
        domain_of(url.as_str())
    }

    /// The login request for these credentials, given the digest of the
    /// password: the plant and the environment are what the configuration
    /// answers when asked.
    pub fn auth_request(&self, password_hash: String) -> (request: ManagerAuthRequest)
        ensures
            call_ensures(C::get_plant_id, (&self.config,), request.plant_id),
            call_ensures(C::get_env_name, (&self.config,), request.environment_name),
            request@.login == self.creds.login,
            request@.password_hash == password_hash@,
    {
        ManagerAuthRequest {
            plant_id: self.config.get_plant_id(),
            environment_name: self.config.get_env_name(),
            login: self.creds.login,
            password_hash,
        }
    }
}

/// A manager interface client around one session.
pub struct ManagerApiClient<C: ManagerApiConfig> {
    config_wrapper: ManagerApiConfigWrapper<C>,
    inner_client: ManagerApiCallback,
}

impl<C: ManagerApiConfig> ManagerApiClient<C> {
    /// The session inside the client.
    pub closed spec fn inner(self) -> ManagerApiCallback {
        self.inner_client
    }

    /// The configuration the client was made with.
    pub closed spec fn config(self) -> C {
        self.config_wrapper.config
    }

    /// The credentials the client was made with.
    pub closed spec fn creds(self) -> ManagerCreds {
        self.config_wrapper.creds
    }

    /// A client that has not connected yet. It will log in to the plant and
    /// environment that `config` names when asked now, with the login of
    /// `creds` and the given digest of their password.
    pub fn new(config: C, creds: ManagerCreds, registry: TagRegistry, password_hash: String) -> (client:
        ManagerApiClient<C>)
        ensures
            client.config() == config,
            client.creds() == creds,
            client.inner().registry() == registry,
            client.inner().session() == Session::initial(),
            client.inner().wait_timeout_ms() == CONNECT_WAIT_MS,
            exists|plant: String|
                call_ensures(C::get_plant_id, (&config,), plant) && client.inner().auth().plant_id
                    == plant@,
            exists|env: String|
                call_ensures(C::get_env_name, (&config,), env)
                    && client.inner().auth().environment_name == env@,
            client.inner().auth().login == creds.login,
            client.inner().auth().password_hash == password_hash@,
    {
        let config_wrapper = ManagerApiConfigWrapper { config, creds };
        let auth = config_wrapper.auth_request(password_hash);
        assert(call_ensures(C::get_plant_id, (&config,), auth.plant_id));
        assert(call_ensures(C::get_env_name, (&config,), auth.environment_name));
        let inner_client = ManagerApiCallback::new(registry, auth, CONNECT_WAIT_MS);
        ManagerApiClient { config_wrapper, inner_client }
    }

    /// How the transport of this client is set up.
    pub fn transport_settings() -> (settings: TransportSettings)
        ensures
            settings == (TransportSettings {
                disconnect_timeout_secs: 40,
                reconnect_timeout_secs: 20,
                seconds_to_ping: 10,
            }),
    {
        TransportSettings {
            disconnect_timeout_secs: DISCONNECT_TIMEOUT_SECS,
            reconnect_timeout_secs: RECONNECT_TIMEOUT_SECS,
            seconds_to_ping: SECONDS_TO_PING,
        }
    }

    /// Starts a connection where none is started, and says where to dial:
    /// the address that the configuration answers when asked now.
    pub fn connect(&mut self) -> (plan: ConnectPlan)
        ensures
            call_ensures(C::get_url, (&old(self).config(),), plan.host_port),
            final(self).config() == old(self).config(),
            final(self).creds() == old(self).creds(),
            final(self).inner().session() == session_step(
                old(self).inner().registry(),
                old(self).inner().session(),
                SessionEvent::Connect,
            ),
            plan.step == (if old(self).inner().session().state is Disconnected {
                ConnectStep::Dial
            } else {
                ConnectStep::AlreadyStarted
            }),
            plan.domain@ == domain_spec(plan.host_port@),
            plan.settings == (TransportSettings {
                disconnect_timeout_secs: 40,
                reconnect_timeout_secs: 20,
                seconds_to_ping: 10,
            }),
            final(self).inner().registry() == old(self).inner().registry(),
            final(self).inner().auth() == old(self).inner().auth(),
            final(self).inner().wait_timeout_ms() == old(self).inner().wait_timeout_ms(),
    {
        let host_port = self.config_wrapper.config.get_url();
        let domain = domain_of(host_port.as_str());
        let step = self.inner_client.connect();
        ConnectPlan { step, host_port, domain, settings: Self::transport_settings() }
    }

    /// What a caller does who has waited `elapsed_ms` for the login.
    pub fn wait_until_connected(&self, elapsed_ms: u64) -> (poll: ConnectPoll)
        ensures
            poll == (if self.inner().session().state is Ready {
                ConnectPoll::Ready
            } else if self.inner().session().rejected {
                ConnectPoll::Failed(crate::manager::callback::ConnectError::AuthRejected)
            } else if elapsed_ms > self.inner().wait_timeout_ms() {
                ConnectPoll::Failed(crate::manager::callback::ConnectError::ConnectTimeout)
            } else {
                ConnectPoll::Pending
            }),
    {
        self.inner_client.wait_until_connected(elapsed_ms)
    }

    /// Whether requests can be sent.
    pub fn is_connected(&self) -> (connected: bool)
        ensures
            connected == (self.inner().session().state is Ready),
    {
        self.inner_client.is_connected()
    }

    /// Ends the connection; answers whether the transport is to be stopped.
    pub fn disconnect(&mut self) -> (stop: bool)
        ensures
            final(self).inner().session() == session_step(
                old(self).inner().registry(),
                old(self).inner().session(),
                SessionEvent::Disconnect,
            ),
            stop == !(old(self).inner().session().state is Disconnected),
            final(self).inner().registry() == old(self).inner().registry(),
            final(self).inner().auth() == old(self).inner().auth(),
            final(self).inner().wait_timeout_ms() == old(self).inner().wait_timeout_ms(),
    {
        self.inner_client.disconnect()
    }

    /// The session, for the transport's notifications.
    pub fn session(&mut self) -> (session: &mut ManagerApiCallback)
        ensures
            *session == old(self).inner(),
            *final(session) == final(self).inner(),
    {
        &mut self.inner_client
    }

    /// Wraps an encoded request of the given schema for sending. Fails
    /// where the session is not ready, and where the registry has no tag for
    /// the schema.
    pub fn request(&self, schema: PayloadSchema, payload: Vec<u8>) -> (r: Result<
        ProtoMessage,
        SendError,
    >)
        ensures
            match r {
                Ok(envelope) => self.inner().session().state is Ready && self.inner().registry().tag_for(
                    schema,
                ) == Some(envelope@.payload_type) && envelope@.payload == Some(payload@)
                    && envelope@.client_msg_id is None,
                Err(SendError::SendWhileDisconnected) => !(self.inner().session().state is Ready),
                Err(SendError::UnregisteredPayload) => self.inner().session().state is Ready
                    && self.inner().registry().tag_for(schema) is None,
            },
    {
        if !self.inner_client.is_connected() {
            return Err(SendError::SendWhileDisconnected);
        }
        match self.inner_client.tag_of(schema) {
            None => Err(SendError::UnregisteredPayload),
            Some(tag) => self.inner_client.send(payload, tag),
        }
    }

    /// Sends a close-position request: the request gets the default channel
    /// where it names none, is encoded and wrapped under the tag of
    /// close-position requests. A ready session always sends.
    pub fn req_close_position(&self, req: ProtoManagerClosePositionReq) -> (r: Result<
        ProtoMessage,
        SendError,
    >)
        ensures
            match r {
                Ok(envelope) => self.inner().session().state is Ready && envelope@ == (
                ProtoMessageView {
                    payload_type: self.inner().registry().tag_for(
                        PayloadSchema::ManagerClosePositionReq,
                    ).unwrap(),
                    payload: Some(req@.with_default_channel().payload()),
                    client_msg_id: None,
                }),
                Err(e) => !(self.inner().session().state is Ready) && e
                    == SendError::SendWhileDisconnected,
            },
    {
        if !self.inner_client.is_connected() {
            return Err(SendError::SendWhileDisconnected);
        }
        let payload = req.with_default_channel().encode_payload();
        let tag = self.inner_client.close_position_request_tag();
        self.inner_client.send(payload, tag)
    }

    /// Wraps an encoded trader-list request for sending, under the tag of
    /// trader-list requests. A ready session always sends.
    pub fn req_trader_list(&self, payload: Vec<u8>) -> (r: Result<ProtoMessage, SendError>)
        ensures
            match r {
                Ok(envelope) => self.inner().session().state is Ready && envelope@ == (
                ProtoMessageView {
                    payload_type: self.inner().registry().tag_for(
                        PayloadSchema::TraderListReq,
                    ).unwrap(),
                    payload: Some(payload@),
                    client_msg_id: None,
                }),
                Err(e) => !(self.inner().session().state is Ready) && e
                    == SendError::SendWhileDisconnected,
            },
    {
        if !self.inner_client.is_connected() {
            return Err(SendError::SendWhileDisconnected);
        }
        let tag = self.inner_client.trader_list_request_tag();
        self.inner_client.send(payload, tag)
    }
}

/// What is left of an inbound outcome once the application has had its part:
/// nothing of an accepted login or a delivered message, all of anything else.
pub open spec fn left_for_caller(outcome: InboundView) -> Option<InboundView> {
    match outcome {
        InboundView::Authenticated(_) => None,
        InboundView::Delivered(_) => None,
        other => Some(other),
    }
}

/// Hands an inbound outcome to the application where it is the
/// application's: an accepted login invokes the connected callback once, a
/// delivered message the message callback once, with that message. Anything
/// else comes back to the caller and the handler is not touched.
pub fn notify_inbound<H: ManagerApiCallbackHandler>(handler: &mut H, outcome: Inbound) -> (rest:
    Option<Inbound>)
    ensures
        match left_for_caller(outcome@) {
            Some(view) => rest matches Some(left) && left@ == view && *final(handler) == *old(
                handler,
            ),
            None => rest is None,
        },
        outcome is Authenticated ==> exists|r: &mut H|
            *r == *old(handler) && *final(r) == *final(handler) && call_ensures(
                H::on_connected,
                (r,),
                (),
            ),
        outcome matches Inbound::Delivered(message) ==> exists|r: &mut H|
            *r == *old(handler) && *final(r) == *final(handler) && call_ensures(
                H::on_message,
                (r, message),
                (),
            ),
{
    match outcome {
        Inbound::Authenticated(_) => {
            handler.on_connected();
            None
        },
        Inbound::Delivered(message) => {
            handler.on_message(message);
            None
        },
        other => Some(other),
    }
}

/// Tells the application that the transport is gone, where that is news: the
/// disconnected callback is invoked once. Answers with the error for the
/// waiting request, where one was waiting.
pub fn notify_disconnected<H: ManagerApiCallbackHandler>(
    handler: &mut H,
    outcome: Disconnection,
) -> (cancelled_wait: Option<WaitError>)
    ensures
        cancelled_wait == outcome.cancelled_wait,
        !outcome.notify ==> *final(handler) == *old(handler),
        outcome.notify ==> exists|r: &mut H|
            *r == *old(handler) && *final(r) == *final(handler) && call_ensures(
                H::on_disconnected,
                (r,),
                (),
            ),
{
    if outcome.notify {
        handler.on_disconnected();
    }
    outcome.cancelled_wait
}

/// What stands before the first colon holds no colon.
pub proof fn lemma_domain_has_no_colon(url: Seq<char>, from: int)
    requires
        0 <= from,
    ensures
        from <= colon_from(url, from) || url.len() <= from,
        colon_from(url, from) <= url.len(),
        forall|i: int| from <= i < colon_from(url, from) ==> url[i] != ':',
    decreases url.len() - from,
{
    if from < url.len() && url[from] != ':' {
        lemma_domain_has_no_colon(url, from + 1);
    }
}

} // verus!
