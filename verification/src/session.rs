//! The server-side life of one client connection.
//!
//! A session is `Active` from the moment its client is registered and
//! `Closed` once its inbound stream has ended or failed. `Closed` is final.
//! The caller reads the inbound stream and hands each thing it read to
//! [`StreamSession::on_event`], which updates the registry and says what to
//! do next.

use vstd::prelude::*;
use vstd::string::*;
use tokio::sync::mpsc::Sender;
use crate::message::ChatMessage;
use crate::registry::{
    contains_id, has_name, lemma_renaming_to_current_name, registered, with_display_name, without,
    ClientRegistry, EntryView, RegistryError, RegistrySnapshot,
};

verus! {

/// The number of leading characters of a client id that its placeholder name
/// shows.
pub const PLACEHOLDER_PREFIX_LEN: usize = 6;

/// The name a client goes by until its first message declares one: `user_`
/// followed by the first six characters of its id, or by the whole id if it
/// is shorter.
pub open spec fn placeholder_of(client_id: Seq<char>) -> Seq<char> {
    let shown = if client_id.len() < PLACEHOLDER_PREFIX_LEN {
        client_id.len() as int
    } else {
        PLACEHOLDER_PREFIX_LEN as int
    };
    seq!['u', 's', 'e', 'r', '_'] + client_id.take(shown)
}

/// Builds the placeholder name for `client_id`.
pub fn placeholder_name(client_id: &str) -> (name: String)
    ensures
        name@ == placeholder_of(client_id@),
{
    let length = client_id.unicode_len();
    let shown = if length < PLACEHOLDER_PREFIX_LEN {
        length
    } else {
        PLACEHOLDER_PREFIX_LEN
    };
    let mut name = String::from_str("user_");
    proof {
        reveal_strlit("user_");
        assert(name@ =~= seq!['u', 's', 'e', 'r', '_']);
    }
    name.append(client_id.substring_char(0, shown));
    proof {
        assert(client_id@.subrange(0, shown as int) =~= client_id@.take(shown as int));
    }
    name
}

/// Where a session stands in its life.
#[derive(Debug, Clone, Copy, PartialEq, Eq, Structural)]
pub enum SessionState {
    /// The inbound stream is open and the client's messages are relayed.
    Active,
    /// The inbound stream has ended; nothing more is relayed.
    Closed,
}

/// What a session is: the id of its client and where it stands.
pub struct SessionView {
    pub client_id: Seq<char>,
    pub state: SessionState,
}

/// What reading the inbound stream gave.
#[derive(Debug)]
pub enum InboundEvent {
    /// The client sent a message.
    Message(ChatMessage),
    /// Reading failed.
    Failed,
    /// The client closed the stream.
    Ended,
}

/// What the caller does after an event.
#[derive(Debug)]
pub enum SessionStep {
    /// Broadcast `message` to `recipients`, then read on. `renamed_from`
    /// holds the name the client went by before, if the message changed it.
    Relay { recipients: RegistrySnapshot, message: ChatMessage, renamed_from: Option<String> },
    /// Stop reading: the session has closed. `removed` tells whether the
    /// client's entry was still in the registry.
    Closed { removed: bool },
    /// Nothing: the session had closed before.
    Ignored,
}

/// The registry after a session of client `client_id` in state `state` has
/// handled an event.
pub open spec fn registry_after(
    entries: Seq<EntryView>,
    client_id: Seq<char>,
    state: SessionState,
    event: InboundEvent,
) -> Seq<EntryView> {
    match (state, event) {
        (SessionState::Closed, _) => entries,
        (SessionState::Active, InboundEvent::Message(message)) => with_display_name(
            entries,
            client_id,
            message@.username,
        ),
        (SessionState::Active, _) => without(entries, client_id),
    }
}

/// The state of a session after it has handled an event.
pub open spec fn state_after(state: SessionState, event: InboundEvent) -> SessionState {
    match (state, event) {
        (SessionState::Active, InboundEvent::Message(_)) => SessionState::Active,
        _ => SessionState::Closed,
    }
}

/// The server-side state of one client connection.
#[derive(Debug)]
pub struct StreamSession {
    client_id: String,
    state: SessionState,
}

impl View for StreamSession {
    type V = SessionView;

    closed spec fn view(&self) -> SessionView {
        SessionView { client_id: self.client_id@, state: self.state }
    }
}

impl StreamSession {
    /// Starts the session of the client `client_id`: registers it under its
    /// placeholder name, reached through `channel`.
    ///
    /// An id that is registered already is turned down with
    /// `DuplicateClient`, and the registry stays as it was.
    pub fn open(
        registry: &mut ClientRegistry,
        client_id: String,
        channel: Sender<ChatMessage>,
    ) -> (opened: Result<StreamSession, RegistryError>)
        requires
            old(registry).wf(),
        ensures
            final(registry).wf(),
            final(registry)@ == registered(
                old(registry)@,
                EntryView {
                    client_id: client_id@,
                    display_name: placeholder_of(client_id@),
                    channel,
                },
            ),
            match opened {
                Ok(session) => {
                    &&& !contains_id(old(registry)@, client_id@)
                    &&& session@ == (SessionView {
                        client_id: client_id@,
                        state: SessionState::Active,
                    })
                },
                Err(error) => {
                    &&& contains_id(old(registry)@, client_id@)
                    &&& error == RegistryError::DuplicateClient
                },
            },
    {
        let display_name = placeholder_name(client_id.as_str());
        match registry.register(client_id.clone(), display_name, channel) {
            Ok(_) => Ok(StreamSession { client_id, state: SessionState::Active }),
            Err(error) => Err(error),
        }
    }

    /// The id of the session's client.
    pub fn client_id(&self) -> (id: &String)
        ensures
            id@ == self@.client_id,
    {
        &self.client_id
    }

    /// Where the session stands.
    pub fn state(&self) -> (state: SessionState)
        ensures
            state == self@.state,
    {
        self.state
    }

    /// Whether the session is still relaying.
    pub fn is_active(&self) -> (active: bool)
        ensures
            active == (self@.state == SessionState::Active),
    {
        match self.state {
            SessionState::Active => true,
            SessionState::Closed => false,
        }
    }

    /// Makes the registry show `username` for the session's client, as a
    /// message of that client declared it.
    ///
    /// The registry is written only where the client is registered under
    /// another name; that name is returned. A client that is no longer
    /// registered stays out.
    pub fn note_username(&self, registry: &mut ClientRegistry, username: &String) -> (renamed_from:
        Option<String>)
        requires
            old(registry).wf(),
        ensures
            final(registry).wf(),
            final(registry)@ == with_display_name(old(registry)@, self@.client_id, username@),
            match renamed_from {
                Some(previous) => previous@ != username@ && has_name(
                    old(registry)@,
                    self@.client_id,
                    previous@,
                ),
                None => !contains_id(old(registry)@, self@.client_id) || has_name(
                    old(registry)@,
                    self@.client_id,
                    username@,
                ),
            },
    {
        match registry.display_name_of(self.client_id.as_str()) {
            Some(current) => {
                if current == *username {
                    proof {
                        lemma_renaming_to_current_name(registry@, self@.client_id, username@);
                    }
                    None
                } else {
                    registry.update_display_name(self.client_id.as_str(), username.clone());
                    Some(current)
                }
            },
            None => {
                proof {
                    assert(registry@ =~= with_display_name(
                        registry@,
                        self@.client_id,
                        username@,
                    ));
                }
                None
            },
        }
    }

    /// Ends the session: takes the client out of the registry and moves to
    /// `Closed`. Says whether this call took an entry out.
    ///
    /// A session that has closed before leaves the registry alone, so the
    /// client is taken out at most once however often this is called.
    pub fn close(&mut self, registry: &mut ClientRegistry) -> (removed: bool)
        requires
            old(registry).wf(),
        ensures
            final(registry).wf(),
            final(self)@ == (SessionView { state: SessionState::Closed, ..old(self)@ }),
            old(self)@.state == SessionState::Active ==> {
                &&& removed == contains_id(old(registry)@, old(self)@.client_id)
                &&& final(registry)@ == without(old(registry)@, old(self)@.client_id)
            },
            old(self)@.state == SessionState::Closed ==> {
                &&& !removed
                &&& final(registry)@ == old(registry)@
            },
    {
        match self.state {
            SessionState::Active => {
                self.state = SessionState::Closed;
                registry.remove(self.client_id.as_str())
            },
            SessionState::Closed => false,
        }
    }

    /// Handles what the inbound stream gave and says what to do next.
    ///
    /// While the session is active, a message makes the registry show the
    /// username it declares and comes back unchanged, with a snapshot of the
    /// registry taken after that update, to be broadcast; a failure or the
    /// end of the stream closes the session. After that every event is
    /// ignored.
    pub fn on_event(&mut self, registry: &mut ClientRegistry, event: InboundEvent) -> (step:
        SessionStep)
        requires
            old(registry).wf(),
        ensures
            final(registry).wf(),
            final(self)@ == (SessionView {
                state: state_after(old(self)@.state, event),
                ..old(self)@
            }),
            final(registry)@ == registry_after(
                old(registry)@,
                old(self)@.client_id,
                old(self)@.state,
                event,
            ),
            match step {
                SessionStep::Relay { recipients, message, renamed_from } => {
                    &&& old(self)@.state == SessionState::Active
                    &&& event matches InboundEvent::Message(received)
                    &&& message@ == received@
                    &&& recipients@ == final(registry)@
                    &&& match renamed_from {
                        Some(previous) => previous@ != message@.username && has_name(
                            old(registry)@,
                            old(self)@.client_id,
                            previous@,
                        ),
                        None => !contains_id(old(registry)@, old(self)@.client_id) || has_name(
                            old(registry)@,
                            old(self)@.client_id,
                            message@.username,
                        ),
                    }
                },
                SessionStep::Closed { removed } => {
                    &&& old(self)@.state == SessionState::Active
                    &&& !(event is Message)
                    &&& removed == contains_id(old(registry)@, old(self)@.client_id)
                },
                SessionStep::Ignored => old(self)@.state == SessionState::Closed,
            },
    {
        match self.state {
            SessionState::Closed => SessionStep::Ignored,
            SessionState::Active => match event {
                InboundEvent::Message(message) => {
                    let renamed_from = self.note_username(registry, message.username());
                    let recipients = registry.snapshot();
                    SessionStep::Relay { recipients, message, renamed_from }
                },
                InboundEvent::Failed => {
                    let removed = self.close(registry);
                    SessionStep::Closed { removed }
                },
                InboundEvent::Ended => {
                    let removed = self.close(registry);
                    SessionStep::Closed { removed }
                },
            },
        }
    }
}

} // verus!
