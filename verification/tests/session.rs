use ctrader_connector::manager::callback::{
    ConnectError, ConnectPoll, ConnectStep, ConnectionState, Disconnection, Inbound,
    ManagerApiCallback, ManagerAuthRequest, SendError, WaitError, POLL_INTERVAL_MS,
    SETTLE_DELAY_MS,
};
use ctrader_connector::manager::models::{
    ManagerApiError, ManagerApiEvent, ManagerApiMessage, ManagerApiResponse, PayloadError,
};
use ctrader_connector::manager::registry::{MessageKind, PayloadSchema, TagEntry, TagRegistry};
use ctrader_connector::manager::serialization::{ManagerApiSerializer, ProtoMessage};

fn registry() -> TagRegistry {
    let housekeeping = vec![
        TagEntry::known(51, PayloadSchema::HeartbeatEvent),
        TagEntry::known(52, PayloadSchema::PingReq),
        TagEntry::known(53, PayloadSchema::PingRes),
        TagEntry::known(990, PayloadSchema::HelloEvent),
    ];
    let domain = vec![
        TagEntry::known(50, PayloadSchema::ErrorRes),
        TagEntry::known(300, PayloadSchema::ExecutionEvent),
        TagEntry::known(301, PayloadSchema::ManagerAuthReq),
        TagEntry::known(302, PayloadSchema::ManagerAuthRes),
        TagEntry::known(401, PayloadSchema::TraderListReq),
        TagEntry::known(402, PayloadSchema::TraderListRes),
        TagEntry::other(501, MessageKind::Request),
        TagEntry::known(605, PayloadSchema::ManagerClosePositionReq),
    ];
    TagRegistry::new(housekeeping, domain).unwrap()
}

fn auth() -> ManagerAuthRequest {
    ManagerAuthRequest {
        plant_id: "p".to_string(),
        environment_name: "demo".to_string(),
        login: 7,
        password_hash: "h".to_string(),
    }
}

fn session() -> ManagerApiCallback {
    ManagerApiCallback::new(registry(), auth(), 30_000)
}

fn env(tag: u32, payload: Option<Vec<u8>>) -> ProtoMessage {
    ProtoMessage { payload_type: tag, payload, client_msg_id: None }
}

fn auth_res() -> ManagerApiMessage {
    ManagerApiMessage::Response(ManagerApiResponse::ManagerAuthRes(vec![]))
}

fn ready() -> ManagerApiCallback {
    let mut s = session();
    assert_eq!(s.connect(), ConnectStep::Dial);
    assert!(s.connected(1).is_some());
    assert_eq!(s.payload(env(302, Some(vec![]))), Inbound::Authenticated(auth_res()));
    s
}

#[test]
fn a_new_session_is_disconnected() {
    let s = session();
    assert_eq!(s.state(), ConnectionState::Disconnected);
    assert!(!s.is_connected());
    assert!(!s.is_waiting());
    assert_eq!(s.current_transport(), None);
}

#[test]
fn auth_request_has_the_expected_bytes() {
    let payload = auth().encode_payload(301);
    let mut expected = vec![0x08, 0xad, 0x02, 0x12, 1, b'p', 0x1a, 4];
    expected.extend_from_slice(b"demo");
    expected.extend_from_slice(&[0x20, 7, 0x2a, 1, b'h']);
    assert_eq!(payload, expected);
    assert_eq!(auth().duplicate(), auth());
}

#[test]
fn auth_request_agrees_with_prost_field_encoders() {
    let a = ManagerAuthRequest {
        plant_id: "plant \u{e9}".to_string(),
        environment_name: String::new(),
        login: -5,
        password_hash: "0123456789abcdef0123456789abcdef".to_string(),
    };
    let mut expected = Vec::new();
    prost::encoding::int32::encode(1, &301, &mut expected);
    prost::encoding::string::encode(2, &a.plant_id, &mut expected);
    prost::encoding::string::encode(3, &a.environment_name, &mut expected);
    prost::encoding::int64::encode(4, &a.login, &mut expected);
    prost::encoding::string::encode(5, &a.password_hash, &mut expected);
    assert_eq!(a.encode_payload(301), expected);
    for login in [i64::MIN, -1, 0, 1, i64::MAX] {
        let a = ManagerAuthRequest { login, ..auth() };
        let mut expected = Vec::new();
        prost::encoding::int32::encode(1, &301, &mut expected);
        prost::encoding::string::encode(2, &a.plant_id, &mut expected);
        prost::encoding::string::encode(3, &a.environment_name, &mut expected);
        prost::encoding::int64::encode(4, &login, &mut expected);
        prost::encoding::string::encode(5, &a.password_hash, &mut expected);
        assert_eq!(a.encode_payload(301), expected);
    }
}

#[test]
fn handshake_sends_one_auth_request_and_then_waits() {
    let mut s = session();
    assert_eq!(s.connect(), ConnectStep::Dial);
    assert_eq!(s.state(), ConnectionState::Connecting);
    assert_eq!(s.send(vec![1], 401), Err(SendError::SendWhileDisconnected));
    let request = s.connected(9).unwrap();
    assert_eq!(request, ProtoMessage::new(auth().encode_payload(301), 301));
    assert_eq!(s.state(), ConnectionState::AwaitingAuth);
    assert!(!s.is_connected());
    assert_eq!(s.current_transport(), None);
    // nothing else goes out before the login is answered
    assert_eq!(s.send(vec![1], 401), Err(SendError::SendWhileDisconnected));
    assert_eq!(s.send_and_wait(vec![1], 401), Err(WaitError::SendWhileDisconnected));
    // a second notification does not send a second request
    assert_eq!(s.connected(10), None);
    assert_eq!(s.state(), ConnectionState::AwaitingAuth);
    // other traffic does not make the session ready
    assert_eq!(s.payload(env(51, None)), Inbound::Swallowed);
    assert_eq!(
        s.payload(env(990, None)),
        Inbound::Delivered(ManagerApiMessage::Event(ManagerApiEvent::HelloEvent))
    );
    assert_eq!(s.payload(env(777, None)), Inbound::Unhandled);
    assert_eq!(s.state(), ConnectionState::AwaitingAuth);
    assert_eq!(s.payload(env(302, Some(vec![]))), Inbound::Authenticated(auth_res()));
    assert_eq!(s.state(), ConnectionState::Ready);
    assert!(s.is_connected());
    assert_eq!(s.current_transport(), Some(9));
}

#[test]
fn connect_scenario() {
    let mut s = session();
    s.connect();
    s.connected(1).unwrap();
    assert_eq!(s.payload(env(302, Some(vec![]))), Inbound::Authenticated(auth_res()));
    assert!(s.is_connected());
    let close_position = vec![0x10, 0x01];
    assert_eq!(
        s.send(close_position.clone(), 605),
        Ok(ProtoMessage::new(close_position.clone(), 605))
    );
    assert_eq!(s.disconnected(), Disconnection { notify: true, cancelled_wait: None });
    assert!(!s.is_connected());
    assert_eq!(s.send(close_position, 605), Err(SendError::SendWhileDisconnected));
}

#[test]
fn reconnect_goes_through_the_handshake_again() {
    let mut s = ready();
    s.disconnected();
    assert_eq!(s.state(), ConnectionState::Disconnected);
    // the transport dials again by itself
    let request = s.connected(2).unwrap();
    assert_eq!(request.payload_type, 301);
    assert_eq!(s.state(), ConnectionState::AwaitingAuth);
    assert_eq!(s.payload(env(302, Some(vec![]))), Inbound::Authenticated(auth_res()));
    assert_eq!(s.current_transport(), Some(2));
}

#[test]
fn connect_is_only_started_once() {
    let mut s = session();
    assert_eq!(s.connect(), ConnectStep::Dial);
    assert_eq!(s.connect(), ConnectStep::AlreadyStarted);
    s.connected(1);
    assert_eq!(s.connect(), ConnectStep::AlreadyStarted);
    assert_eq!(s.state(), ConnectionState::AwaitingAuth);
    let mut s = ready();
    assert_eq!(s.connect(), ConnectStep::AlreadyStarted);
    assert!(s.is_connected());
}

#[test]
fn rejected_login_ends_the_attempt() {
    let mut s = session();
    s.connect();
    s.connected(1).unwrap();
    let rejection = ManagerApiMessage::Error(ManagerApiError::ErrorRes(vec![0x08, 0x01]));
    assert_eq!(s.payload(env(50, Some(vec![0x08, 0x01]))), Inbound::Rejected(rejection));
    assert_eq!(s.state(), ConnectionState::Disconnected);
    assert!(!s.is_connected());
    assert_eq!(s.wait_until_connected(0), ConnectPoll::Failed(ConnectError::AuthRejected));
    assert_eq!(s.send(vec![], 401), Err(SendError::SendWhileDisconnected));
    // the transport closing afterwards is no news
    assert_eq!(s.disconnected(), Disconnection { notify: false, cancelled_wait: None });
    // a new attempt starts clean
    assert_eq!(s.connect(), ConnectStep::Dial);
    assert_eq!(s.wait_until_connected(0), ConnectPoll::Pending);
}

#[test]
fn error_after_login_is_an_ordinary_message() {
    let mut s = ready();
    let error = ManagerApiMessage::Error(ManagerApiError::ErrorRes(vec![]));
    assert_eq!(s.payload(env(50, Some(vec![]))), Inbound::Delivered(error));
    assert!(s.is_connected());
}

#[test]
fn second_blocking_request_is_a_conflict() {
    let mut s = ready();
    assert_eq!(s.send_and_wait(vec![1], 401), Ok(ProtoMessage::new(vec![1], 401)));
    assert!(s.is_waiting());
    assert_eq!(s.send_and_wait(vec![2], 401), Err(WaitError::CorrelationConflict));
    assert_eq!(s.send_and_wait(vec![3], 401), Err(WaitError::CorrelationConflict));
    assert!(s.is_waiting());
    assert!(s.is_connected());
    // requests that do not wait still go out
    assert_eq!(s.send(vec![4], 401), Ok(ProtoMessage::new(vec![4], 401)));
}

#[test]
fn next_message_resolves_the_wait() {
    let mut s = ready();
    s.send_and_wait(vec![1], 401).unwrap();
    let reply = ManagerApiMessage::Response(ManagerApiResponse::TraderListRes(vec![0x08, 0x02]));
    assert_eq!(s.payload(env(402, Some(vec![0x08, 0x02]))), Inbound::Resolved(reply.clone()));
    assert!(!s.is_waiting());
    // the one after goes to the application
    assert_eq!(s.payload(env(402, Some(vec![0x08, 0x02]))), Inbound::Delivered(reply));
    assert_eq!(s.send_and_wait(vec![1], 401), Ok(ProtoMessage::new(vec![1], 401)));
}

#[test]
fn an_event_that_comes_first_takes_the_slot() {
    let mut s = ready();
    s.send_and_wait(vec![1], 401).unwrap();
    let event = ManagerApiMessage::Event(ManagerApiEvent::ExecutionEvent(vec![]));
    assert_eq!(s.payload(env(300, Some(vec![]))), Inbound::Resolved(event));
    assert!(!s.is_waiting());
}

#[test]
fn timeout_frees_the_slot() {
    let mut s = ready();
    s.send_and_wait(vec![1], 401).unwrap();
    assert_eq!(s.wait_timed_out(), Some(WaitError::WaitTimeout));
    assert!(!s.is_waiting());
    assert!(s.is_connected());
    assert_eq!(s.send_and_wait(vec![2], 401), Ok(ProtoMessage::new(vec![2], 401)));
    // a timeout that comes after the reply is no error
    s.payload(env(402, Some(vec![])));
    assert_eq!(s.wait_timed_out(), None);
    assert_eq!(session().wait_timed_out(), None);
}

#[test]
fn disconnect_cancels_the_wait() {
    let mut s = ready();
    s.send_and_wait(vec![1], 401).unwrap();
    assert_eq!(s.disconnected(), Disconnection { notify: true, cancelled_wait: Some(WaitError::Disconnected) });
    assert!(!s.is_waiting());
    assert!(!s.is_connected());
    assert_eq!(s.current_transport(), None);
    assert_eq!(s.wait_timed_out(), None);
    assert_eq!(s.send_and_wait(vec![1], 401), Err(WaitError::SendWhileDisconnected));
}

#[test]
fn disconnect_while_awaiting_auth_is_reported() {
    let mut s = session();
    s.connect();
    s.connected(1);
    assert_eq!(s.disconnected(), Disconnection { notify: true, cancelled_wait: None });
    assert_eq!(s.state(), ConnectionState::Disconnected);
    assert_eq!(s.disconnected(), Disconnection { notify: false, cancelled_wait: None });
    let mut s = session();
    s.connect();
    assert_eq!(s.disconnected(), Disconnection { notify: false, cancelled_wait: None });
    assert_eq!(s.state(), ConnectionState::Connecting);
}

#[test]
fn keepalive_reaches_neither_application_nor_slot() {
    let ping = ManagerApiSerializer::new(registry()).get_ping(1_000_000);
    let mut s = ready();
    for m in [env(51, None), env(53, Some(vec![0x08, 0x35])), ping.duplicate(), env(51, Some(vec![0xff]))] {
        assert_eq!(s.payload(m), Inbound::Swallowed);
    }
    s.send_and_wait(vec![1], 401).unwrap();
    for m in [env(51, None), env(53, Some(vec![0x08, 0x35])), ping, env(52, None)] {
        assert_eq!(s.payload(m), Inbound::Swallowed);
        assert!(s.is_waiting());
    }
    let reply = ManagerApiMessage::Response(ManagerApiResponse::TraderListRes(vec![]));
    assert_eq!(s.payload(env(402, Some(vec![]))), Inbound::Resolved(reply));
}

#[test]
fn bad_frames_are_dropped_and_the_connection_stays() {
    let mut s = ready();
    s.send_and_wait(vec![1], 401).unwrap();
    assert_eq!(s.payload(env(402, None)), Inbound::Dropped(PayloadError::MissingPayload(402)));
    assert_eq!(
        s.payload(env(402, Some(vec![0x08]))),
        Inbound::Dropped(PayloadError::MalformedPayload(402))
    );
    assert_eq!(s.payload(env(501, Some(vec![]))), Inbound::Dropped(PayloadError::NotImplemented(501)));
    assert_eq!(s.payload(env(4242, Some(vec![]))), Inbound::Unhandled);
    assert!(s.is_connected());
    assert!(s.is_waiting());
}

#[test]
fn application_disconnect() {
    let mut s = session();
    assert!(!s.disconnect());
    s.connect();
    assert!(s.disconnect());
    assert_eq!(s.state(), ConnectionState::Disconnected);
    let mut s = ready();
    assert!(s.disconnect());
    // the session stays up until the transport says it is gone
    assert!(s.is_connected());
    s.disconnected();
    assert!(!s.is_connected());
}

#[test]
fn waiting_for_the_login() {
    let mut s = session();
    s.connect();
    assert_eq!(s.wait_until_connected(0), ConnectPoll::Pending);
    assert_eq!(s.wait_until_connected(30_000), ConnectPoll::Pending);
    assert_eq!(s.wait_until_connected(30_001), ConnectPoll::Failed(ConnectError::ConnectTimeout));
    s.connected(1);
    assert_eq!(s.wait_until_connected(250), ConnectPoll::Pending);
    s.payload(env(302, Some(vec![])));
    assert_eq!(s.wait_until_connected(250), ConnectPoll::Ready);
    assert_eq!(s.wait_until_connected(u64::MAX), ConnectPoll::Ready);
    assert_eq!(SETTLE_DELAY_MS, 500);
    assert_eq!(POLL_INTERVAL_MS, 250);
}

#[test]
fn tag_of_asks_the_registry() {
    let s = session();
    assert_eq!(s.tag_of(PayloadSchema::ManagerClosePositionReq), Some(605));
    assert_eq!(s.tag_of(PayloadSchema::OrderDetailsRes), None);
    assert_eq!(s.close_position_request_tag(), 605);
    assert_eq!(s.trader_list_request_tag(), 401);
}
