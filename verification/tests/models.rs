use ctrader_connector::manager::models::{
    has_payload, ManagerApiError, ManagerApiEvent, ManagerApiMessage, ManagerApiResponse,
    PayloadError,
};
use ctrader_connector::manager::registry::{MessageKind, PayloadSchema, TagEntry, TagRegistry};
use ctrader_connector::manager::serialization::ProtoMessage;

fn registry() -> TagRegistry {
    let housekeeping = vec![
        TagEntry::known(51, PayloadSchema::HeartbeatEvent),
        TagEntry::known(52, PayloadSchema::PingReq),
        TagEntry::known(53, PayloadSchema::PingRes),
        TagEntry::other(54, MessageKind::Request),
        TagEntry::known(990, PayloadSchema::HelloEvent),
    ];
    let domain = vec![
        TagEntry::known(50, PayloadSchema::ErrorRes),
        TagEntry::known(132, PayloadSchema::OrderErrorEvent),
        TagEntry::known(300, PayloadSchema::ExecutionEvent),
        TagEntry::known(301, PayloadSchema::ManagerAuthReq),
        TagEntry::known(302, PayloadSchema::ManagerAuthRes),
        TagEntry::known(316, PayloadSchema::OrderDetailsRes),
        TagEntry::known(401, PayloadSchema::TraderListReq),
        TagEntry::known(402, PayloadSchema::TraderListRes),
        TagEntry::known(410, PayloadSchema::BalanceHistoryRes),
        TagEntry::other(501, MessageKind::Request),
        TagEntry::other(502, MessageKind::Response),
        TagEntry::known(503, PayloadSchema::TraderChangedEvent),
        TagEntry::known(600, PayloadSchema::TraderLogonEvent),
        TagEntry::known(601, PayloadSchema::TraderLogoutEvent),
        TagEntry::known(605, PayloadSchema::ManagerClosePositionReq),
    ];
    TagRegistry::new(housekeeping, domain).unwrap()
}

fn env(tag: u32, payload: Option<Vec<u8>>) -> ProtoMessage {
    ProtoMessage { payload_type: tag, payload, client_msg_id: None }
}

fn sample() -> Vec<u8> {
    vec![0x08, 0x96, 0x01, 0x12, 0x02, b'o', b'k']
}

#[test]
fn every_decode_path_keeps_the_payload() {
    let r = registry();
    let p = sample();
    let expected = vec![
        (50, ManagerApiMessage::Error(ManagerApiError::ErrorRes(p.clone()))),
        (132, ManagerApiMessage::Error(ManagerApiError::OrderErrorEvent(p.clone()))),
        (300, ManagerApiMessage::Event(ManagerApiEvent::ExecutionEvent(p.clone()))),
        (302, ManagerApiMessage::Response(ManagerApiResponse::ManagerAuthRes(p.clone()))),
        (316, ManagerApiMessage::Response(ManagerApiResponse::OrderDetailsRes(p.clone()))),
        (402, ManagerApiMessage::Response(ManagerApiResponse::TraderListRes(p.clone()))),
        (410, ManagerApiMessage::Response(ManagerApiResponse::BalanceHistoryRes(p.clone()))),
        (503, ManagerApiMessage::Event(ManagerApiEvent::TraderChangedEvent(p.clone()))),
        (600, ManagerApiMessage::Event(ManagerApiEvent::TraderLogonEvent(p.clone()))),
        (601, ManagerApiMessage::Event(ManagerApiEvent::TraderLogoutEvent(p.clone()))),
    ];
    for (tag, message) in expected {
        let got = ManagerApiMessage::try_from_proto(ProtoMessage::new(p.clone(), tag), &r);
        assert_eq!(got, Ok(Some(message.clone())));
        assert_eq!(message.payload(), &p[..]);
        assert_eq!(r.schema(tag), Some(message.schema()));
        assert_eq!(r.classify(tag), message.kind());
    }
}

#[test]
fn empty_payload_is_well_formed() {
    let r = registry();
    assert_eq!(
        ManagerApiMessage::try_from_proto(env(302, Some(vec![])), &r),
        Ok(Some(ManagerApiMessage::Response(ManagerApiResponse::ManagerAuthRes(vec![]))))
    );
}

#[test]
fn hello_needs_no_payload() {
    let r = registry();
    let hello = ManagerApiMessage::Event(ManagerApiEvent::HelloEvent);
    assert_eq!(ManagerApiMessage::try_from_proto(env(990, None), &r), Ok(Some(hello.clone())));
    assert_eq!(
        ManagerApiMessage::try_from_proto(env(990, Some(vec![0xff])), &r),
        Ok(Some(hello.clone()))
    );
    assert_eq!(hello.payload(), &[] as &[u8]);
    assert_eq!(hello.schema(), PayloadSchema::HelloEvent);
    assert_eq!(hello.kind(), MessageKind::Event);
}

#[test]
fn unlisted_tags_give_nothing() {
    let r = registry();
    assert_eq!(ManagerApiMessage::try_from_proto(env(12345, Some(sample())), &r), Ok(None));
    assert_eq!(ManagerApiMessage::try_from_proto(env(0, None), &r), Ok(None));
    assert_eq!(ManagerApiMessage::try_from_proto(env(u32::MAX, Some(vec![0xff])), &r), Ok(None));
}

#[test]
fn keepalive_gives_nothing() {
    let r = registry();
    for tag in [51, 52, 53] {
        assert_eq!(ManagerApiMessage::try_from_proto(env(tag, Some(sample())), &r), Ok(None));
        assert_eq!(ManagerApiMessage::try_from_proto(env(tag, None), &r), Ok(None));
        assert_eq!(ManagerApiMessage::try_from_proto(env(tag, Some(vec![0xff])), &r), Ok(None));
    }
}

#[test]
fn missing_payload_is_an_error() {
    let r = registry();
    for tag in [50, 132, 300, 302, 316, 402, 410, 503, 600, 601] {
        assert_eq!(
            ManagerApiMessage::try_from_proto(env(tag, None), &r),
            Err(PayloadError::MissingPayload(tag))
        );
    }
}

#[test]
fn malformed_payload_is_an_error() {
    let r = registry();
    for payload in [vec![0x08], vec![0x12, 0x03, 1], vec![0x00], vec![0x0f, 0x01]] {
        assert_eq!(
            ManagerApiMessage::try_from_proto(env(402, Some(payload)), &r),
            Err(PayloadError::MalformedPayload(402))
        );
    }
}

#[test]
fn tags_without_a_decode_path_are_not_implemented() {
    let r = registry();
    for tag in [54, 301, 401, 501, 502, 605] {
        assert_eq!(
            ManagerApiMessage::try_from_proto(env(tag, Some(sample())), &r),
            Err(PayloadError::NotImplemented(tag))
        );
        assert_eq!(
            ManagerApiMessage::try_from_proto(env(tag, None), &r),
            Err(PayloadError::NotImplemented(tag))
        );
    }
}

#[test]
fn with_payload_covers_the_schemas_that_carry_one() {
    let carrying = [
        PayloadSchema::ErrorRes,
        PayloadSchema::OrderErrorEvent,
        PayloadSchema::ExecutionEvent,
        PayloadSchema::ManagerAuthRes,
        PayloadSchema::OrderDetailsRes,
        PayloadSchema::TraderListRes,
        PayloadSchema::BalanceHistoryRes,
        PayloadSchema::TraderChangedEvent,
        PayloadSchema::TraderLogonEvent,
        PayloadSchema::TraderLogoutEvent,
    ];
    for schema in carrying {
        assert!(has_payload(schema));
        let m = ManagerApiMessage::with_payload(schema, vec![1]).unwrap();
        assert_eq!(m.schema(), schema);
        assert_eq!(m.payload(), &[1u8][..]);
        assert_eq!(m.kind(), schema.message_kind());
    }
    let others = [
        PayloadSchema::HelloEvent,
        PayloadSchema::HeartbeatEvent,
        PayloadSchema::PingReq,
        PayloadSchema::PingRes,
        PayloadSchema::ManagerAuthReq,
        PayloadSchema::TraderListReq,
        PayloadSchema::ManagerClosePositionReq,
    ];
    for schema in others {
        assert!(!has_payload(schema));
        assert_eq!(ManagerApiMessage::with_payload(schema, vec![1]), None);
    }
}
