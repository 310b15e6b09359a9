//! The unit that travels on the wire.

use vstd::prelude::*;
use vstd::string::*;

verus! {

/// What a chat message is, as plain text.
pub struct MessageView {
    pub username: Seq<char>,
    pub message: Seq<char>,
}

/// One chat message: the name its sender declared for it, and its text.
///
/// A message is never changed once built. The username is whatever the sender
/// asserted when sending; the relay passes it on as it is.
#[derive(Debug, PartialEq, Eq)]
pub struct ChatMessage {
    username: String,
    message: String,
}

impl View for ChatMessage {
    type V = MessageView;

    open spec fn view(&self) -> MessageView {
        MessageView { username: self.spec_username()@, message: self.spec_message()@ }
    }
}

impl ChatMessage {
    pub closed spec fn spec_username(&self) -> String {
        self.username
    }

    pub closed spec fn spec_message(&self) -> String {
        self.message
    }

    /// Builds a message from the sender's declared name and the text.
    pub fn new(username: String, message: String) -> (built: ChatMessage)
        ensures
            built@.username == username@,
            built@.message == message@,
    {
        ChatMessage { username, message }
    }

    /// The message by which a client announces itself right after connecting,
    /// so that the relay learns its username: `has joined the chat`.
    pub fn join_notice(username: String) -> (notice: ChatMessage)
        ensures
            notice@.username == username@,
            notice@.message == "has joined the chat"@,
    {
        ChatMessage { username, message: String::from_str("has joined the chat") }
    }

    /// Whether the message declares `username` as its sender. A client
    /// shows a message as its own exactly when this holds of the name it
    /// goes by.
    pub fn is_from(&self, username: &str) -> (own: bool)
        ensures
            own == (self@.username == username@),
    {
        *self.username.as_str() == *username
    }

    /// The name the sender declared on this message.
    pub fn username(&self) -> (name: &String)
        ensures
            name@ == self@.username,
    {
        &self.username
    }

    /// The text of this message.
    pub fn message(&self) -> (text: &String)
        ensures
            text@ == self@.message,
    {
        &self.message
    }
}

impl Clone for ChatMessage {
    /// A copy that carries the same username and the same text.
    fn clone(&self) -> (copy: ChatMessage)
        ensures
            copy@ == self@,
    {
        ChatMessage { username: self.username.clone(), message: self.message.clone() }
    }
}

} // verus!
