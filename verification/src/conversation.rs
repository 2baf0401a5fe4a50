//! The conversation store: the messages of one session, in the order in
//! which they were written.

use vstd::prelude::*;
use crate::message::{copy_messages, message_views, Message, MessageView};

verus! {

/// The history of one session. It grows by one message at a time and
/// empties only on [`Conversation::clear`]. Nothing is assumed of the order
/// of roles.
pub struct Conversation {
    messages: Vec<Message>,
}

impl View for Conversation {
    type V = Seq<MessageView>;

    closed spec fn view(&self) -> Seq<MessageView> {
        message_views(self.messages@)
    }
}

impl Conversation {
    /// Starts an empty conversation.
    pub fn new() -> (conversation: Conversation)
        ensures
            conversation@ == Seq::<MessageView>::empty(),
    {
        let conversation = Conversation { messages: Vec::new() };
        assert(conversation@ =~= Seq::<MessageView>::empty());
        conversation
    }

    /// Adds a message behind those already there.
    pub fn append(&mut self, message: Message)
        ensures
            final(self)@ == old(self)@.push(message@),
    {
        self.messages.push(message);
        assert(self@ =~= old(self)@.push(message@));
    }

    /// Copies the history as it stands.
    pub fn snapshot(&self) -> (copy: Vec<Message>)
        ensures
            message_views(copy@) == self@,
    {
        copy_messages(&self.messages)
    }

    /// Forgets every message.
    pub fn clear(&mut self)
        ensures
            final(self)@ == Seq::<MessageView>::empty(),
    {
        self.messages.clear();
        assert(self@ =~= Seq::<MessageView>::empty());
    }

    /// Returns how many messages the history holds.
    pub fn len(&self) -> (count: usize)
        ensures
            count == self@.len(),
    {
        self.messages.len()
    }

    /// Tells whether the history holds no message.
    pub fn is_empty(&self) -> (empty: bool)
        ensures
            empty == (self@.len() == 0),
    {
        self.messages.len() == 0
    }

    /// Returns the messages in order.
    pub fn messages(&self) -> (messages: &Vec<Message>)
        ensures
            message_views(messages@) == self@,
    {
        &self.messages
    }
}

} // verus!
