use vstd::prelude::*;

verus! {

/// Whether a piece of text is well-formed JSON, exactly as the entity
/// decoder accepts it. Only `json_parses` below gives this name meaning.
pub uninterp spec fn json_value_parses(text: Seq<char>) -> bool;

/// Relies on `serde_json::from_str::<serde_json::Value>`: it returns `Ok`
/// exactly on well-formed JSON text, deciding by the text alone.
#[verifier::external_body]
pub(crate) fn json_parses(text: &str) -> (r: bool)
    ensures
        r == json_value_parses(text@),
{
    serde_json::from_str::<serde_json::Value>(text).is_ok()
}

/// A status entity, carried as the JSON text it was decoded from.
#[derive(Debug, Clone, PartialEq, Eq)]
pub struct Status {
    pub json: String,
}

/// A notification entity, carried as the JSON text it was decoded from.
#[derive(Debug, Clone, PartialEq, Eq)]
pub struct Notification {
    pub json: String,
}

/// A conversation entity, carried as the JSON text it was decoded from.
#[derive(Debug, Clone, PartialEq, Eq)]
pub struct Conversation {
    pub json: String,
}

impl Status {
    /// A status is well formed when its text is decodable JSON.
    pub open spec fn wf(&self) -> bool {
        json_value_parses(self.json@)
    }

    /// Decode a status entity from its JSON text; fails exactly on text the
    /// entity decoder rejects, handing the text back for the log.
    pub fn decode(json: String) -> (r: Result<Status, String>)
        ensures
            r is Ok <==> json_value_parses(json@),
            r matches Ok(s) ==> s.json@ == json@ && s.wf(),
            r matches Err(j) ==> j == json,
    {
        if json_parses(json.as_str()) {
            Ok(Status { json })
        } else {
            Err(json)
        }
    }
}

impl Notification {
    /// A notification is well formed when its text is decodable JSON.
    pub open spec fn wf(&self) -> bool {
        json_value_parses(self.json@)
    }

    /// Decode a notification entity from its JSON text; fails exactly on
    /// text the entity decoder rejects, handing the text back for the log.
    pub fn decode(json: String) -> (r: Result<Notification, String>)
        ensures
            r is Ok <==> json_value_parses(json@),
            r matches Ok(n) ==> n.json@ == json@ && n.wf(),
            r matches Err(j) ==> j == json,
    {
        if json_parses(json.as_str()) {
            Ok(Notification { json })
        } else {
            Err(json)
        }
    }
}

impl Conversation {
    /// A conversation is well formed when its text is decodable JSON.
    pub open spec fn wf(&self) -> bool {
        json_value_parses(self.json@)
    }

    /// Decode a conversation entity from its JSON text; fails exactly on
    /// text the entity decoder rejects, handing the text back for the log.
    pub fn decode(json: String) -> (r: Result<Conversation, String>)
        ensures
            r is Ok <==> json_value_parses(json@),
            r matches Ok(c) ==> c.json@ == json@ && c.wf(),
            r matches Err(j) ==> j == json,
    {
        if json_parses(json.as_str()) {
            Ok(Conversation { json })
        } else {
            Err(json)
        }
    }
}

/// One decoded event, handed to the caller's sink in arrival order.
/// A heartbeat carries nothing; a delete carries the identifier verbatim.
#[derive(Debug, Clone, PartialEq, Eq)]
pub enum Event {
    Heartbeat,
    Update(Status),
    Notification(Notification),
    Conversation(Conversation),
    Delete(String),
}

/// The mathematical value of an event: each entity stands as the JSON text
/// it was decoded from, a delete as its identifier.
pub enum EventView {
    Heartbeat,
    Update(Seq<char>),
    Notification(Seq<char>),
    Conversation(Seq<char>),
    Delete(Seq<char>),
}

impl View for Event {
    type V = EventView;

    open spec fn view(&self) -> EventView {
        match self {
            Event::Heartbeat => EventView::Heartbeat,
            Event::Update(s) => EventView::Update(s.json@),
            Event::Notification(n) => EventView::Notification(n.json@),
            Event::Conversation(c) => EventView::Conversation(c.json@),
            Event::Delete(id) => EventView::Delete(id@),
        }
    }
}

} // verus!
