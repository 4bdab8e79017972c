//! Extraction of recognized events from one line of the child's output.
//!
//! The wire format is permissive: a line is inspected for one of two
//! recognized shapes, and any structural mismatch — invalid JSON, a missing
//! or mistyped field, an unknown discriminator — yields no event rather than
//! an error.

use crate::json::{
    json_model, json_parse, obj_field, obj_has, obj_str, parse_json, value_as_str, value_get,
    JsonModel,
};
use crate::text::str_eq;
use vstd::prelude::*;

verus! {

/// Ghost form of a recognized event.
pub enum EventModel {
    ThreadStarted { thread_id: Seq<char> },
    AgentMessage { text: Option<Seq<char>> },
}

/// Events recognized in the child's JSON output.
#[derive(Debug, Clone)]
pub enum Event {
    ThreadStarted { thread_id: String },
    AgentMessage { text: Option<String> },
}

impl View for Event {
    type V = EventModel;

    open spec fn view(&self) -> EventModel {
        match self {
            Event::ThreadStarted { thread_id } => EventModel::ThreadStarted {
                thread_id: thread_id@,
            },
            Event::AgentMessage { text } => EventModel::AgentMessage { text: text.deep_view() },
        }
    }
}

/// The event that a parsed document yields, if any: a `thread.started`
/// object carrying a string `thread_id`, or an `item.completed` object whose
/// `item.type` is `agent_message` (with `item.text` where that is a string).
pub open spec fn event_of(j: JsonModel) -> Option<EventModel> {
    if obj_str(j, "type"@) == Some("thread.started"@) {
        match obj_str(j, "thread_id"@) {
            Some(id) => Some(EventModel::ThreadStarted { thread_id: id }),
            None => None,
        }
    } else if obj_str(j, "type"@) == Some("item.completed"@) {
        if obj_has(j, "item"@) && obj_str(obj_field(j, "item"@), "type"@) == Some(
            "agent_message"@,
        ) {
            Some(EventModel::AgentMessage { text: obj_str(obj_field(j, "item"@), "text"@) })
        } else {
            None
        }
    } else {
        None
    }
}

/// The event extracted from a raw line: `None` for anything that does not
/// parse or is not recognized.
pub open spec fn extract_spec(line: Seq<char>) -> Option<EventModel> {
    match json_parse(line) {
        Some(j) => event_of(j),
        None => None,
    }
}

/// Ghost view of an optional event.
pub open spec fn opt_event_view(r: Option<Event>) -> Option<EventModel> {
    match r {
        Some(e) => Some(e@),
        None => None,
    }
}

/// Walk an already parsed document for a recognized event.
pub fn extract_from_value(v: &serde_json::Value) -> (r: Option<Event>)
    ensures
        opt_event_view(r) == event_of(json_model(*v)),
{
    let ty = match value_get(v, "type") {
        Some(t) => match value_as_str(t) {
            Some(s) => s,
            None => {
                return None;
            },
        },
        None => {
            return None;
        },
    };
    if str_eq(ty, "thread.started") {
        match value_get(v, "thread_id") {
            Some(tid) => match value_as_str(tid) {
                Some(s) => Some(Event::ThreadStarted { thread_id: s.to_owned() }),
                None => None,
            },
            None => None,
        }
    } else if str_eq(ty, "item.completed") {
        match value_get(v, "item") {
            Some(item) => match value_get(item, "type") {
                Some(it) => match value_as_str(it) {
                    Some(its) => {
                        if str_eq(its, "agent_message") {
                            let text = match value_get(item, "text") {
                                Some(t) => match value_as_str(t) {
                                    Some(ts) => Some(ts.to_owned()),
                                    None => None,
                                },
                                None => None,
                            };
                            Some(Event::AgentMessage { text })
                        } else {
                            None
                        }
                    },
                    None => None,
                },
                None => None,
            },
            None => None,
        }
    } else {
        None
    }
}

/// Parse a JSON line permissively, extracting only recognized events.
/// Unknown or malformed lines yield `None` and are silently skipped.
pub fn extract_event(line: &str) -> (r: Option<Event>)
    ensures
        opt_event_view(r) == extract_spec(line@),
{
    match parse_json(line) {
        Some(v) => extract_from_value(&v),
        None => None,
    }
}

/// For any parsed document whose discriminator field is the string
/// `thread.started`: extraction yields `ThreadStarted` with the document's
/// `thread_id` iff that field is present and a string, and no event at all
/// otherwise.
pub proof fn lemma_thread_started_extraction(j: JsonModel)
    requires
        obj_str(j, "type"@) == Some("thread.started"@),
    ensures
        obj_str(j, "thread_id"@) matches Some(id) ==> event_of(j) == Some(
            EventModel::ThreadStarted { thread_id: id },
        ),
        obj_str(j, "thread_id"@) is None ==> event_of(j) is None,
{
}

/// For any parsed document whose discriminator field is the string
/// `item.completed`: extraction yields an `AgentMessage` iff an `item` field
/// is present whose own `type` field is the string `agent_message`; the text
/// carried is the item's `text` field where that is a string, absent
/// otherwise. Any other nested type yields no event.
pub proof fn lemma_item_completed_extraction(j: JsonModel)
    requires
        obj_str(j, "type"@) == Some("item.completed"@),
    ensures
        event_of(j) is Some <==> (obj_has(j, "item"@) && obj_str(
            obj_field(j, "item"@),
            "type"@,
        ) == Some("agent_message"@)),
        event_of(j) is Some ==> event_of(j) == Some(
            EventModel::AgentMessage { text: obj_str(obj_field(j, "item"@), "text"@) },
        ),
{
    assert("thread.started"@ != "item.completed"@) by {
        reveal_strlit("thread.started");
        reveal_strlit("item.completed");
        assert("thread.started"@[0] == 't');
        assert("item.completed"@[0] == 'i');
    }
}

/// A line that does not parse as JSON yields no event; extraction never
/// raises, an unrecognized line is an ordinary `None`.
pub proof fn lemma_malformed_line_no_event(line: Seq<char>)
    requires
        json_parse(line) is None,
    ensures
        extract_spec(line) is None,
{
}

} // verus!
