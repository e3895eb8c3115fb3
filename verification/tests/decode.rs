use stream_client::codec::{decode, parse_envelope, EntityKind, ParseFailure};
use stream_client::event::{Conversation, Event, Notification, Status};
use stream_client::frame::Frame;

fn text(s: &str) -> Frame {
    Frame::Text(s.to_string())
}

#[test]
fn ping_decodes_to_heartbeat_whatever_its_payload() {
    assert_eq!(decode(Frame::Ping(Vec::new())), Ok(Event::Heartbeat));
    assert_eq!(decode(Frame::Ping(vec![1, 2, 3])), Ok(Event::Heartbeat));
}

#[test]
fn pong_decodes_to_heartbeat_whatever_its_payload() {
    assert_eq!(decode(Frame::Pong(Vec::new())), Ok(Event::Heartbeat));
    assert_eq!(decode(Frame::Pong(vec![255, 0])), Ok(Event::Heartbeat));
}

#[test]
fn delete_payload_is_the_identifier_verbatim() {
    let frame = text("{\"event\":\"delete\",\"payload\":\"123\"}");
    assert_eq!(decode(frame), Ok(Event::Delete("123".to_string())));
}

#[test]
fn delete_payload_is_never_json_decoded() {
    // Not valid JSON at all; a delete must still take it verbatim.
    let frame = text("{\"event\":\"delete\",\"payload\":\"not json {\"}");
    assert_eq!(decode(frame), Ok(Event::Delete("not json {".to_string())));
}

#[test]
fn unknown_tag_is_named_in_the_failure() {
    let frame = text("{\"event\":\"bogus\",\"payload\":\"x\"}");
    assert_eq!(
        decode(frame),
        Err(ParseFailure::UnknownTag("bogus".to_string()))
    );
}

#[test]
fn text_that_is_not_json_is_a_malformed_envelope() {
    assert_eq!(
        decode(text("this is not json")),
        Err(ParseFailure::MalformedEnvelope)
    );
}

#[test]
fn envelope_with_missing_field_is_malformed() {
    assert_eq!(
        decode(text("{\"event\":\"update\"}")),
        Err(ParseFailure::MalformedEnvelope)
    );
    assert_eq!(
        decode(text("{\"payload\":\"x\"}")),
        Err(ParseFailure::MalformedEnvelope)
    );
}

#[test]
fn envelope_with_mistyped_field_is_malformed() {
    assert_eq!(
        decode(text("{\"event\":5,\"payload\":\"x\"}")),
        Err(ParseFailure::MalformedEnvelope)
    );
    assert_eq!(
        decode(text("{\"event\":\"update\",\"payload\":{}}")),
        Err(ParseFailure::MalformedEnvelope)
    );
}

#[test]
fn envelope_that_is_not_an_object_is_malformed() {
    assert_eq!(decode(text("[1,2,3]")), Err(ParseFailure::MalformedEnvelope));
    assert_eq!(decode(text("\"quoted\"")), Err(ParseFailure::MalformedEnvelope));
}

#[test]
fn binary_frame_is_unsupported() {
    assert_eq!(
        decode(Frame::Binary(vec![1, 2, 3])),
        Err(ParseFailure::UnsupportedFrame)
    );
}

#[test]
fn update_with_well_formed_payload_decodes() {
    let frame = text("{\"event\":\"update\",\"payload\":\"{\\\"id\\\":\\\"1\\\"}\"}");
    assert_eq!(
        decode(frame),
        Ok(Event::Update(Status {
            json: "{\"id\":\"1\"}".to_string()
        }))
    );
}

#[test]
fn update_with_malformed_payload_keeps_the_raw_text() {
    let frame = text("{\"event\":\"update\",\"payload\":\"oops {\"}");
    assert_eq!(
        decode(frame),
        Err(ParseFailure::InvalidEntity(
            EntityKind::Status,
            "oops {".to_string()
        ))
    );
}

#[test]
fn notification_decodes_and_fails_like_update() {
    let good = text("{\"event\":\"notification\",\"payload\":\"{\\\"id\\\":\\\"2\\\"}\"}");
    assert_eq!(
        decode(good),
        Ok(Event::Notification(Notification {
            json: "{\"id\":\"2\"}".to_string()
        }))
    );
    let bad = text("{\"event\":\"notification\",\"payload\":\"nope {\"}");
    assert_eq!(
        decode(bad),
        Err(ParseFailure::InvalidEntity(
            EntityKind::Notification,
            "nope {".to_string()
        ))
    );
}

#[test]
fn conversation_decodes_and_fails_like_update() {
    let good = text("{\"event\":\"conversation\",\"payload\":\"{\\\"id\\\":\\\"3\\\"}\"}");
    assert_eq!(
        decode(good),
        Ok(Event::Conversation(Conversation {
            json: "{\"id\":\"3\"}".to_string()
        }))
    );
    let bad = text("{\"event\":\"conversation\",\"payload\":\"nope {\"}");
    assert_eq!(
        decode(bad),
        Err(ParseFailure::InvalidEntity(
            EntityKind::Conversation,
            "nope {".to_string()
        ))
    );
}

#[test]
fn parse_envelope_reads_both_fields() {
    let env = parse_envelope("{\"event\":\"delete\",\"payload\":\"9\"}").unwrap();
    assert_eq!(env.event, "delete");
    assert_eq!(env.payload, "9");
    assert!(parse_envelope("{}").is_none());
    assert!(parse_envelope("").is_none());
}

#[test]
fn entity_decoders_accept_exactly_well_formed_json() {
    assert!(Status::decode("{\"id\":\"1\"}".to_string()).is_ok());
    assert_eq!(
        Status::decode("{broken".to_string()),
        Err("{broken".to_string())
    );
    assert!(Notification::decode("[]".to_string()).is_ok());
    assert_eq!(Notification::decode("".to_string()), Err("".to_string()));
    assert!(Conversation::decode("3".to_string()).is_ok());
    assert_eq!(Conversation::decode("{".to_string()), Err("{".to_string()));
}
