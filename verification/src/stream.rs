//! The streaming reply consumer: what each chunk of a streamed reply means,
//! and the reply that a sequence of chunks adds up to.
//!
//! A chunk is read on its own. It counts when it is well-formed UTF-8 whose
//! text opens with `data: `; what follows that prefix is the event's payload:
//! either the terminator `[DONE]` or a JSON delta. Anything else is ignored,
//! and never ends the stream.

use vstd::prelude::*;
use vstd::utf8::*;
use crate::json::{first_named, json_document, lemma_array_view, parse, Json, JsonValue};
use crate::text::{decode, strip_prefix, text_equals, without_prefix};

verus! {

/// The prefix that opens every event line.
pub open spec fn event_prefix() -> Seq<char> {
    "data: "@
}

/// The payload that marks the end of the stream.
pub open spec fn terminator() -> Seq<char> {
    "[DONE]"@
}

/// What one entry of a delta's `choices` carries: `Some(Some(text))` for a
/// text fragment, `Some(None)` for an entry without text, and `None` for a
/// value that is no choice entry at all.
///
/// An entry is an object whose member `delta` is an object; that object's
/// member `content` is a string, `null`, or absent.
pub open spec fn choice_fragment(choice: JsonValue) -> Option<Option<Seq<char>>> {
    match choice.member("delta"@) {
        Some(JsonValue::Object(fields)) => match first_named(fields, "content"@) {
            None => Some(None),
            Some(JsonValue::Null) => Some(None),
            Some(JsonValue::Text(text)) => Some(Some(text)),
            Some(_) => None,
        },
        _ => None,
    }
}

/// The fragments of a delta's choices, in order; `None` unless the document
/// is an object whose member `choices` is a non-empty array of choice entries.
pub open spec fn delta_choices(document: JsonValue) -> Option<Seq<Option<Seq<char>>>> {
    match document.member("choices"@) {
        Some(JsonValue::Array(entries)) => if entries.len() > 0 && forall|i: int|
            0 <= i < entries.len() ==> (#[trigger] choice_fragment(entries[i])) is Some {
            Some(Seq::new(entries.len(), |i: int| choice_fragment(entries[i]).unwrap()))
        } else {
            None
        },
        _ => None,
    }
}

/// The text fragment of a delta: that of its first choice.
pub open spec fn delta_fragment(document: JsonValue) -> Option<Seq<char>> {
    match delta_choices(document) {
        Some(choices) => choices[0],
        None => None,
    }
}

/// One decoded event of a streamed reply.
#[derive(Debug)]
pub enum StreamEvent {
    /// A piece of the reply's text.
    Fragment(String),
    /// The end-of-stream marker.
    Terminator,
    /// A chunk that carries nothing: not text, not an event line, not a
    /// delta, or a delta without text.
    Ignored,
}

/// A [`StreamEvent`] as a mathematical value.
pub enum EventView {
    Fragment(Seq<char>),
    Terminator,
    Ignored,
}

impl View for StreamEvent {
    type V = EventView;

    open spec fn view(&self) -> EventView {
        match self {
            StreamEvent::Fragment(text) => EventView::Fragment(text@),
            StreamEvent::Terminator => EventView::Terminator,
            StreamEvent::Ignored => EventView::Ignored,
        }
    }
}

impl EventView {
    /// The text that the event adds to the reply.
    pub open spec fn text(self) -> Seq<char> {
        match self {
            EventView::Fragment(text) => text,
            _ => Seq::empty(),
        }
    }
}

/// The event that a parsed payload stands for.
pub open spec fn event_of_document(document: JsonValue) -> EventView {
    match delta_fragment(document) {
        Some(text) => EventView::Fragment(text),
        None => EventView::Ignored,
    }
}

/// The event that a payload stands for.
pub open spec fn event_of_payload(payload: Seq<char>) -> EventView {
    if payload == terminator() {
        EventView::Terminator
    } else {
        match json_document(payload) {
            Some(document) => event_of_document(document),
            None => EventView::Ignored,
        }
    }
}

/// The event that a chunk's text stands for.
pub open spec fn event_of_text(text: Seq<char>) -> EventView {
    match without_prefix(text, event_prefix()) {
        Some(payload) => event_of_payload(payload),
        None => EventView::Ignored,
    }
}

/// The event that a chunk stands for.
pub open spec fn event_of_chunk(chunk: Seq<u8>) -> EventView {
    if valid_utf8(chunk) {
        event_of_text(decode_utf8(chunk))
    } else {
        EventView::Ignored
    }
}

/// What each chunk adds to the reply, chunk by chunk.
pub open spec fn contributions(chunks: Seq<Seq<u8>>) -> Seq<Seq<char>> {
    chunks.map_values(|chunk: Seq<u8>| event_of_chunk(chunk).text())
}

/// The reply that a sequence of chunks adds up to: the fragments of its
/// chunks, joined in arrival order.
pub open spec fn assembled(chunks: Seq<Seq<u8>>) -> Seq<char> {
    contributions(chunks).flatten()
}

/// Reads one entry of a delta's `choices`.
pub fn read_choice(choice: &Json) -> (fragment: Option<Option<String>>)
    ensures
        fragment.deep_view() == choice_fragment(choice@),
{
    match choice.member("delta") {
        Some(delta) => match delta {
            Json::Object(_) => match delta.member("content") {
                None => Some(None),
                Some(Json::Null) => Some(None),
                Some(Json::Text(text)) => Some(Some(text.clone())),
                Some(_) => None,
            },
            _ => None,
        },
        None => None,
    }
}

/// Reads the choices of a delta.
pub fn read_delta(document: &Json) -> (choices: Option<Vec<Option<String>>>)
    ensures
        choices.deep_view() == delta_choices(document@),
        choices matches Some(listed) ==> listed.len() > 0,
{
    let entries = match document.member("choices") {
        Some(Json::Array(entries)) => entries,
        _ => {
            return None;
        },
    };
    if entries.len() == 0 {
        return None;
    }
    let ghost listed = Json::Array(*entries)@->Array_0;
    proof {
        lemma_array_view(*entries);
    }
    let mut choices: Vec<Option<String>> = Vec::new();
    let mut i: usize = 0;
    while i < entries.len()
        invariant
            i <= entries.len(),
            listed.len() == entries.len(),
            listed.len() > 0,
            document@.member("choices"@) == Some(JsonValue::Array(listed)),
            forall|k: int| 0 <= k < listed.len() ==> listed[k] == entries@[k]@,
            choices.len() == i,
            forall|k: int|
                0 <= k < i ==> (#[trigger] choice_fragment(listed[k])) == Some(
                    choices@[k].deep_view(),
                ),
        decreases entries.len() - i,
    {
        match read_choice(&entries[i]) {
            Some(fragment) => {
                choices.push(fragment);
            },
            None => {
                assert(choice_fragment(listed[i as int]) is None);
                return None;
            },
        }
        i += 1;
    }
    proof {
        let expected = delta_choices(document@);
        assert(expected is Some);
        assert(choices.deep_view() =~= expected.unwrap());
    }
    Some(choices)
}

/// Tells which event a parsed payload stands for.
pub fn classify_document(document: &Json) -> (event: StreamEvent)
    ensures
        event@ == event_of_document(document@),
{
    match read_delta(document) {
        Some(mut choices) => {
            assert(choices.deep_view()[0] == choices@[0].deep_view());
            match choices.swap_remove(0) {
                Some(text) => StreamEvent::Fragment(text),
                None => StreamEvent::Ignored,
            }
        },
        None => StreamEvent::Ignored,
    }
}

/// Tells which event a payload stands for.
pub fn classify_payload(payload: &str) -> (event: StreamEvent)
    ensures
        event@ == event_of_payload(payload@),
{
    if text_equals(payload, "[DONE]") {
        StreamEvent::Terminator
    } else {
        match parse(payload) {
            Some(document) => classify_document(&document),
            None => StreamEvent::Ignored,
        }
    }
}

/// Tells which event a chunk's text stands for.
pub fn classify_text(text: &str) -> (event: StreamEvent)
    ensures
        event@ == event_of_text(text@),
{
    match strip_prefix(text, "data: ") {
        Some(payload) => classify_payload(payload),
        None => StreamEvent::Ignored,
    }
}

/// Tells which event a chunk stands for.
pub fn classify_chunk(chunk: &[u8]) -> (event: StreamEvent)
    ensures
        event@ == event_of_chunk(chunk@),
{
    match decode(chunk) {
        Some(text) => classify_text(text),
        None => StreamEvent::Ignored,
    }
}

} // verus!
