//! Assembling a reply from the chunks of a stream, one at a time or all at
//! once, and what holds of the result.

use vstd::prelude::*;
use vstd::utf8::*;
use crate::json::{json_document, JsonValue};
use crate::stream::{
    assembled, classify_chunk, contributions, delta_fragment, event_of_chunk, event_of_document,
    event_prefix, terminator, EventView, StreamEvent,
};
use crate::text::{starts_with, without_prefix};

verus! {

/// The reply of one stream as it builds up, chunk by chunk.
pub struct ReplyAssembler {
    reply: String,
    seen: Ghost<Seq<Seq<u8>>>,
}

impl ReplyAssembler {
    /// The text gathered so far is the reply that the chunks taken in add up
    /// to. Every assembler that [`ReplyAssembler::new`] made is in order,
    /// and stays so.
    pub closed spec fn in_order(self) -> bool {
        self.reply@ == assembled(self.seen@)
    }

    /// The chunks taken in so far, in arrival order.
    pub closed spec fn chunks(self) -> Seq<Seq<u8>> {
        self.seen@
    }

    /// The text gathered so far.
    pub closed spec fn text(self) -> Seq<char> {
        self.reply@
    }

    /// Starts a reply with nothing in it.
    pub fn new() -> (fresh: Self)
        ensures
            fresh.in_order(),
            fresh.chunks() == Seq::<Seq<u8>>::empty(),
            fresh.text() == Seq::<char>::empty(),
    {
        proof {
            lemma_assembled_empty();
        }
        ReplyAssembler { reply: String::new(), seen: Ghost(Seq::empty()) }
    }

    /// Takes in the next chunk and tells which event it was. A fragment is
    /// added to the reply; any other chunk leaves the reply as it is.
    pub fn accept(&mut self, chunk: &[u8]) -> (event: StreamEvent)
        requires
            old(self).in_order(),
        ensures
            final(self).in_order(),
            event@ == event_of_chunk(chunk@),
            final(self).chunks() == old(self).chunks().push(chunk@),
            final(self).text() == old(self).text() + event@.text(),
            final(self).text() == assembled(final(self).chunks()),
    {
        proof {
            lemma_assembled_push(self.seen@, chunk@);
        }
        let event = classify_chunk(chunk);
        match &event {
            StreamEvent::Fragment(text) => {
                self.reply.append(text.as_str());
            },
            _ => {
                assert(self.reply@ + event@.text() =~= self.reply@);
            },
        }
        self.seen = Ghost(self.seen@.push(chunk@));
        event
    }

    /// Returns the text gathered so far.
    pub fn reply(&self) -> (text: &str)
        requires
            self.in_order(),
        ensures
            text@ == self.text(),
            text@ == assembled(self.chunks()),
    {
        self.reply.as_str()
    }

    /// Ends the stream and hands out the assembled reply.
    pub fn finish(self) -> (reply: String)
        requires
            self.in_order(),
        ensures
            reply@ == self.text(),
            reply@ == assembled(self.chunks()),
    {
        self.reply
    }
}

/// Assembles the reply of a whole stream. Every chunk is read, whatever the
/// chunks before it held.
pub fn assemble(chunks: &Vec<Vec<u8>>) -> (reply: String)
    ensures
        reply@ == assembled(chunks.deep_view()),
{
    let mut assembler = ReplyAssembler::new();
    let mut i: usize = 0;
    while i < chunks.len()
        invariant
            i <= chunks.len(),
            assembler.in_order(),
            assembler.chunks() == chunks.deep_view().take(i as int),
        decreases chunks.len() - i,
    {
        let _ = assembler.accept(chunks[i].as_slice());
        assert(chunks@[i as int].deep_view() =~= chunks@[i as int]@);
        assert(chunks.deep_view().take(i as int).push(chunks@[i as int]@)
            =~= chunks.deep_view().take(i + 1));
        i += 1;
    }
    assert(chunks.deep_view().take(i as int) =~= chunks.deep_view());
    assembler.finish()
}

/// No chunks, no reply.
pub proof fn lemma_assembled_empty()
    ensures
        assembled(Seq::<Seq<u8>>::empty()) == Seq::<char>::empty(),
{
    assert(contributions(Seq::<Seq<u8>>::empty()) =~= Seq::<Seq<char>>::empty());
}

/// One more chunk adds its own text, if it has any, behind what was there.
pub proof fn lemma_assembled_push(chunks: Seq<Seq<u8>>, chunk: Seq<u8>)
    ensures
        assembled(chunks.push(chunk)) == assembled(chunks) + event_of_chunk(chunk).text(),
{
    assert(contributions(chunks.push(chunk)) =~= contributions(chunks).push(
        event_of_chunk(chunk).text(),
    ));
    contributions(chunks).lemma_flatten_push(event_of_chunk(chunk).text());
}

/// The reply of a stream is the reply of its first part followed by the
/// reply of the rest: the assembled reply is the concatenation, in arrival
/// order, of what each chunk carries.
pub proof fn lemma_assembled_concat(first: Seq<Seq<u8>>, rest: Seq<Seq<u8>>)
    ensures
        assembled(first + rest) == assembled(first) + assembled(rest),
{
    assert(contributions(first + rest) =~= contributions(first) + contributions(rest));
    vstd::seq_lib::lemma_flatten_concat(contributions(first), contributions(rest));
}

/// An event whose payload parses to a delta adds what the first choice of
/// the delta holds: its text, or nothing where it has none.
pub proof fn lemma_event_adds_its_content(chunk: Seq<u8>, payload: Seq<char>, document: JsonValue)
    requires
        valid_utf8(chunk),
        without_prefix(decode_utf8(chunk), event_prefix()) == Some(payload),
        payload != terminator(),
        json_document(payload) == Some(document),
    ensures
        event_of_chunk(chunk) == event_of_document(document),
        delta_fragment(document) matches Some(content) ==> event_of_chunk(chunk).text()
            == content,
        delta_fragment(document) is None ==> event_of_chunk(chunk).text() == Seq::<char>::empty(),
{
}

/// Where every chunk of a stream is an event with a text of its own, the
/// reply is those texts joined in arrival order.
pub proof fn lemma_reply_joins_fragments(chunks: Seq<Seq<u8>>, fragments: Seq<Seq<char>>)
    requires
        chunks.len() == fragments.len(),
        forall|i: int|
            0 <= i < chunks.len() ==> event_of_chunk(#[trigger] chunks[i]).text() == fragments[i],
    ensures
        assembled(chunks) == fragments.flatten(),
{
    assert(contributions(chunks) =~= fragments);
}

/// A chunk that carries no fragment leaves the reply as it would be without
/// that chunk; the chunks behind it are read all the same.
pub proof fn lemma_chunk_without_fragment_is_skipped(
    before: Seq<Seq<u8>>,
    chunk: Seq<u8>,
    after: Seq<Seq<u8>>,
)
    requires
        !(event_of_chunk(chunk) is Fragment),
    ensures
        assembled(before.push(chunk) + after) == assembled(before + after),
        assembled(before.push(chunk) + after) == assembled(before) + assembled(after),
{
    lemma_assembled_concat(before.push(chunk), after);
    lemma_assembled_concat(before, after);
    lemma_assembled_push(before, chunk);
    assert(assembled(before) + Seq::<char>::empty() =~= assembled(before));
}

/// A chunk that is not well-formed UTF-8 is ignored, and does not stop the
/// chunks behind it from adding to the reply.
pub proof fn lemma_undecodable_chunk_is_skipped(
    before: Seq<Seq<u8>>,
    chunk: Seq<u8>,
    after: Seq<Seq<u8>>,
)
    requires
        !valid_utf8(chunk),
    ensures
        event_of_chunk(chunk) == EventView::Ignored,
        assembled(before.push(chunk) + after) == assembled(before + after),
        assembled(before.push(chunk) + after) == assembled(before) + assembled(after),
{
    lemma_chunk_without_fragment_is_skipped(before, chunk, after);
}

/// A chunk of text that does not open with the event prefix is ignored, and
/// does not stop the chunks behind it from adding to the reply.
pub proof fn lemma_non_event_chunk_is_skipped(
    before: Seq<Seq<u8>>,
    chunk: Seq<u8>,
    after: Seq<Seq<u8>>,
)
    requires
        valid_utf8(chunk),
        !starts_with(decode_utf8(chunk), event_prefix()),
    ensures
        event_of_chunk(chunk) == EventView::Ignored,
        assembled(before.push(chunk) + after) == assembled(before + after),
        assembled(before.push(chunk) + after) == assembled(before) + assembled(after),
{
    lemma_chunk_without_fragment_is_skipped(before, chunk, after);
}

/// An event whose payload is not a JSON document adds nothing, and does
/// not stop the chunks behind it from adding to the reply.
pub proof fn lemma_unparsable_payload_is_skipped(
    before: Seq<Seq<u8>>,
    chunk: Seq<u8>,
    payload: Seq<char>,
    after: Seq<Seq<u8>>,
)
    requires
        valid_utf8(chunk),
        without_prefix(decode_utf8(chunk), event_prefix()) == Some(payload),
        json_document(payload) is None,
    ensures
        !(event_of_chunk(chunk) is Fragment),
        assembled(before.push(chunk) + after) == assembled(before + after),
        assembled(before.push(chunk) + after) == assembled(before) + assembled(after),
{
    lemma_chunk_without_fragment_is_skipped(before, chunk, after);
}

/// The terminator adds no text and ends nothing: the chunks behind it are
/// read and add to the reply as they would without it.
pub proof fn lemma_terminator_adds_nothing(
    before: Seq<Seq<u8>>,
    chunk: Seq<u8>,
    after: Seq<Seq<u8>>,
)
    requires
        valid_utf8(chunk),
        without_prefix(decode_utf8(chunk), event_prefix()) == Some(terminator()),
    ensures
        event_of_chunk(chunk) == EventView::Terminator,
        event_of_chunk(chunk).text() == Seq::<char>::empty(),
        assembled(before.push(chunk) + after) == assembled(before + after),
        assembled(before.push(chunk) + after) == assembled(before) + assembled(after),
{
    lemma_chunk_without_fragment_is_skipped(before, chunk, after);
}

} // verus!
