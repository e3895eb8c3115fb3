use vstd::prelude::*;
use vstd::string::StringExecFns;

use crate::event::{Conversation, Event, EventView, Notification, Status, json_value_parses};
use crate::frame::{Frame, FrameView};

verus! {

/// The string value of a named top-level field of a JSON text, when the
/// text is a JSON object and that field holds a string. Only
/// `json_string_field_of` below gives this name meaning.
pub uninterp spec fn json_string_field(text: Seq<char>, field: Seq<char>) -> Option<Seq<char>>;

/// Relies on `serde_json::from_str::<serde_json::Value>`, `Value::get` and
/// `Value::as_str`: together they yield the string under the named field of
/// a JSON object, or nothing, decided by the two texts alone.
#[verifier::external_body]
fn json_string_field_of(text: &str, field: &str) -> (r: Option<String>)
    ensures
        r matches Some(s) ==> json_string_field(text@, field@) == Some(s@),
        r is None ==> json_string_field(text@, field@) is None,
{
    let value: serde_json::Value = match serde_json::from_str(text) {
        Ok(v) => v,
        Err(_) => return None,
    };
    match value.get(field) {
        Some(f) => match f.as_str() {
            Some(s) => Some(s.to_owned()),
            None => None,
        },
        None => None,
    }
}

/// The outer wire object of a text frame: an event tag and a payload whose
/// text stays opaque until the tag is known.
#[derive(Debug, Clone, PartialEq, Eq)]
pub struct Envelope {
    pub event: String,
    pub payload: String,
}

/// What a text frame's envelope parses to: its `event` and `payload`
/// fields, present exactly when both are string fields of a JSON object.
pub open spec fn envelope_of(text: Seq<char>) -> Option<(Seq<char>, Seq<char>)> {
    match (json_string_field(text, "event"@), json_string_field(text, "payload"@)) {
        (Some(tag), Some(payload)) => Some((tag, payload)),
        _ => None,
    }
}

/// Parse the outer envelope of a text frame; fails exactly on text that is
/// not a JSON object with string fields `event` and `payload`.
pub fn parse_envelope(text: &str) -> (r: Option<Envelope>)
    ensures
        r matches Some(env) ==> envelope_of(text@) == Some((env.event@, env.payload@)),
        r is None ==> envelope_of(text@) is None,
{
    let tag = json_string_field_of(text, "event");
    let payload = json_string_field_of(text, "payload");
    match (tag, payload) {
        (Some(event), Some(payload)) => Some(Envelope { event, payload }),
        _ => None,
    }
}

/// Which entity a recognized tag asks for; names the kind that failed when
/// its payload does not decode.
#[derive(Clone, Copy, Debug, PartialEq, Eq, Structural)]
pub enum EntityKind {
    Status,
    Notification,
    Conversation,
}

/// A per-frame decode failure. It is logged and never ends a session.
/// An entity failure keeps the raw payload, an unknown tag keeps the tag,
/// so the log can name what was rejected.
#[derive(Debug, Clone, PartialEq, Eq)]
pub enum ParseFailure {
    UnsupportedFrame,
    MalformedEnvelope,
    InvalidEntity(EntityKind, String),
    UnknownTag(String),
}

/// The mathematical value of a decode failure.
pub enum ParseFailureView {
    UnsupportedFrame,
    MalformedEnvelope,
    InvalidEntity(EntityKind, Seq<char>),
    UnknownTag(Seq<char>),
}

impl View for ParseFailure {
    type V = ParseFailureView;

    open spec fn view(&self) -> ParseFailureView {
        match self {
            ParseFailure::UnsupportedFrame => ParseFailureView::UnsupportedFrame,
            ParseFailure::MalformedEnvelope => ParseFailureView::MalformedEnvelope,
            ParseFailure::InvalidEntity(kind, payload) => ParseFailureView::InvalidEntity(
                *kind,
                payload@,
            ),
            ParseFailure::UnknownTag(tag) => ParseFailureView::UnknownTag(tag@),
        }
    }
}

/// The mathematical value of a decode result.
pub open spec fn decode_result_view(r: Result<Event, ParseFailure>) -> Result<
    EventView,
    ParseFailureView,
> {
    match r {
        Ok(e) => Ok(e@),
        Err(p) => Err(p@),
    }
}

/// What the tag dispatch returns for a parsed envelope: a recognized tag
/// yields its event when the payload is acceptable (a delete payload always
/// is, taken verbatim); anything else is the matching failure.
pub open spec fn decode_envelope_spec(tag: Seq<char>, payload: Seq<char>) -> Result<
    EventView,
    ParseFailureView,
> {
    if tag == "update"@ {
        if json_value_parses(payload) {
            Ok(EventView::Update(payload))
        } else {
            Err(ParseFailureView::InvalidEntity(EntityKind::Status, payload))
        }
    } else if tag == "notification"@ {
        if json_value_parses(payload) {
            Ok(EventView::Notification(payload))
        } else {
            Err(ParseFailureView::InvalidEntity(EntityKind::Notification, payload))
        }
    } else if tag == "conversation"@ {
        if json_value_parses(payload) {
            Ok(EventView::Conversation(payload))
        } else {
            Err(ParseFailureView::InvalidEntity(EntityKind::Conversation, payload))
        }
    } else if tag == "delete"@ {
        Ok(EventView::Delete(payload))
    } else {
        Err(ParseFailureView::UnknownTag(tag))
    }
}

/// What `decode` returns for a frame: a ping or pong is a heartbeat before
/// anything else is looked at; a text frame goes through the envelope and
/// then the tag dispatch; any other frame is unsupported.
pub open spec fn decode_spec(f: FrameView) -> Result<EventView, ParseFailureView> {
    match f {
        FrameView::Ping(_) => Ok(EventView::Heartbeat),
        FrameView::Pong(_) => Ok(EventView::Heartbeat),
        FrameView::Text(t) => match envelope_of(t) {
            Some(env) => decode_envelope_spec(env.0, env.1),
            None => Err(ParseFailureView::MalformedEnvelope),
        },
        FrameView::Binary(_) => Err(ParseFailureView::UnsupportedFrame),
        FrameView::Close(_) => Err(ParseFailureView::UnsupportedFrame),
    }
}

/// The second decode phase: dispatch a parsed envelope on its tag.
pub fn decode_envelope(env: Envelope) -> (r: Result<Event, ParseFailure>)
    ensures
        decode_result_view(r) == decode_envelope_spec(env.event@, env.payload@),
{
    let Envelope { event, payload } = env;
    if event == String::from_str("update") {
        match Status::decode(payload) {
            Ok(s) => Ok(Event::Update(s)),
            Err(payload) => Err(ParseFailure::InvalidEntity(EntityKind::Status, payload)),
        }
    } else if event == String::from_str("notification") {
        match Notification::decode(payload) {
            Ok(n) => Ok(Event::Notification(n)),
            Err(payload) => Err(ParseFailure::InvalidEntity(EntityKind::Notification, payload)),
        }
    } else if event == String::from_str("conversation") {
        match Conversation::decode(payload) {
            Ok(c) => Ok(Event::Conversation(c)),
            Err(payload) => Err(ParseFailure::InvalidEntity(EntityKind::Conversation, payload)),
        }
    } else if event == String::from_str("delete") {
        Ok(Event::Delete(payload))
    } else {
        Err(ParseFailure::UnknownTag(event))
    }
}

/// Classify one frame: the first decode phase, then the tag dispatch.
pub fn decode(frame: Frame) -> (r: Result<Event, ParseFailure>)
    ensures
        decode_result_view(r) == decode_spec(frame@),
{
    match frame {
        Frame::Ping(_) => Ok(Event::Heartbeat),
        Frame::Pong(_) => Ok(Event::Heartbeat),
        Frame::Text(t) => match parse_envelope(t.as_str()) {
            Some(env) => decode_envelope(env),
            None => Err(ParseFailure::MalformedEnvelope),
        },
        Frame::Binary(_) => Err(ParseFailure::UnsupportedFrame),
        Frame::Close(_) => Err(ParseFailure::UnsupportedFrame),
    }
}

/// Every ping or pong decodes to a heartbeat, whatever its payload holds.
pub proof fn lemma_ping_pong_is_heartbeat(f: FrameView)
    requires
        f is Ping || f is Pong,
    ensures
        decode_spec(f) == Ok::<EventView, ParseFailureView>(EventView::Heartbeat),
{
}

/// A text frame whose envelope is missing or mistypes its fields decodes
/// to a malformed-envelope failure, never to an event.
pub proof fn lemma_malformed_envelope_rejected(t: Seq<char>)
    requires
        envelope_of(t) is None,
    ensures
        decode_spec(FrameView::Text(t)) == Err::<EventView, ParseFailureView>(
            ParseFailureView::MalformedEnvelope,
        ),
{
}

/// A recognized entity tag with a payload the entity decoder rejects fails
/// with that entity's kind and the raw payload, kept for the log.
pub proof fn lemma_invalid_entity_keeps_payload(t: Seq<char>, payload: Seq<char>)
    requires
        envelope_of(t) == Some(("update"@, payload)),
        !json_value_parses(payload),
    ensures
        decode_spec(FrameView::Text(t)) == Err::<EventView, ParseFailureView>(
            ParseFailureView::InvalidEntity(EntityKind::Status, payload),
        ),
{
}

} // verus!
