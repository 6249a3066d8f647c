//! Conversation messages: a role together with textual content.

use vstd::prelude::*;

verus! {

/// Who speaks a message in the conversation.
#[derive(Clone, Copy, PartialEq, Eq, Structural, Debug)]
pub enum Role {
    System,
    User,
    Assistant,
}

/// One conversation message. A message is immutable once created: the
/// library only ever appends whole messages to a history, never edits one.
#[derive(Debug)]
pub struct Message {
    pub role: Role,
    pub content: String,
}

/// The mathematical value of a `Message`: its role and its content as a
/// sequence of characters.
pub struct MessageView {
    pub role: Role,
    pub content: Seq<char>,
}

impl View for Message {
    type V = MessageView;

    open spec fn view(&self) -> MessageView {
        MessageView { role: self.role, content: self.content@ }
    }
}

/// Shorthand for building a `MessageView` in contracts.
pub open spec fn msg_view(role: Role, content: Seq<char>) -> MessageView {
    MessageView { role, content }
}

/// The views of a sequence of messages.
pub open spec fn views_of(ms: Seq<Message>) -> Seq<MessageView> {
    ms.map_values(|m: Message| m@)
}

/// The character sequences of a sequence of strings.
pub open spec fn texts_of(ps: Seq<String>) -> Seq<Seq<char>> {
    ps.map_values(|p: String| p@)
}

impl Message {
    /// Build a message from a role and its content.
    pub fn new(role: Role, content: String) -> (m: Message)
        ensures
            m@ == msg_view(role, content@),
    {
        Message { role, content }
    }
}

impl Clone for Message {
    /// Cloning keeps the role and the exact content.
    fn clone(&self) -> (m: Message)
        ensures
            m@ == self@,
    {
        Message { role: self.role, content: self.content.clone() }
    }
}

} // verus!
