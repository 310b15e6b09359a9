//! The relay as the transport sees it: it opens a stream for each new
//! connection and answers who is connected.

use vstd::prelude::*;
use tokio::sync::mpsc::Receiver;
use crate::channel::{capacity_of, open_channel};
use crate::message::ChatMessage;
use crate::registry::{
    contains_id, display_names, ClientRegistry, EntryView, RegistryError,
};
use crate::session::{placeholder_of, SessionState, SessionView, StreamSession};

verus! {

/// The number of messages a client's outbound channel buffers before further
/// ones are dropped.
pub const OUTBOUND_CAPACITY: usize = 100;

/// The relay: the owner of the client registry.
#[derive(Debug)]
pub struct RelayService {
    registry: ClientRegistry,
}

impl View for RelayService {
    type V = Seq<EntryView>;

    closed spec fn view(&self) -> Seq<EntryView> {
        self.registry@
    }
}

impl RelayService {
    /// A relay is well formed when its registry is.
    pub closed spec fn wf(&self) -> bool {
        self.registry.wf()
    }

    /// A relay with no client connected.
    pub fn new() -> (service: RelayService)
        ensures
            service.wf(),
            service@ == Seq::<EntryView>::empty(),
    {
        RelayService { registry: ClientRegistry::new() }
    }

    /// The registry, to read.
    pub fn registry(&self) -> (registry: &ClientRegistry)
        ensures
            registry@ == self@,
            registry.wf() == self.wf(),
    {
        &self.registry
    }

    /// The registry, for a session to update. The relay stays well formed as
    /// long as the registry does.
    pub fn registry_mut(&mut self) -> (registry: &mut ClientRegistry)
        ensures
            registry@ == old(self)@,
            registry.wf() == old(self).wf(),
            final(self)@ == final(registry)@,
            final(self).wf() == final(registry).wf(),
    {
        &mut self.registry
    }

    /// Accepts the connection of the client `client_id`: opens its outbound
    /// channel, registers the client under its placeholder name and starts
    /// its session. The channel buffers up to `OUTBOUND_CAPACITY` messages;
    /// its receiving half is handed back for the transport to drain.
    ///
    /// An id that is registered already is turned down with
    /// `DuplicateClient`, and the registry stays as it was.
    pub fn open_stream(&mut self, client_id: String) -> (opened: Result<
        (StreamSession, Receiver<ChatMessage>),
        RegistryError,
    >)
        requires
            old(self).wf(),
        ensures
            final(self).wf(),
            match opened {
                Ok((session, _)) => {
                    &&& !contains_id(old(self)@, client_id@)
                    &&& session@ == (SessionView {
                        client_id: client_id@,
                        state: SessionState::Active,
                    })
                    &&& final(self)@.len() == old(self)@.len() + 1
                    &&& final(self)@.drop_last() == old(self)@
                    &&& final(self)@.last().client_id == client_id@
                    &&& final(self)@.last().display_name == placeholder_of(client_id@)
                    &&& capacity_of(final(self)@.last().channel) == OUTBOUND_CAPACITY
                },
                Err(error) => {
                    &&& contains_id(old(self)@, client_id@)
                    &&& error == RegistryError::DuplicateClient
                    &&& final(self)@ == old(self)@
                },
            },
    {
        let (sender, receiver) = open_channel(OUTBOUND_CAPACITY);
        match StreamSession::open(&mut self.registry, client_id, sender) {
            Ok(session) => {
                proof {
                    assert(self@.drop_last() =~= old(self)@);
                }
                Ok((session, receiver))
            },
            Err(error) => Err(error),
        }
    }

    /// The display names of the connected clients, in the order in which
    /// they connected; empty when nobody is connected.
    pub fn list_users(&self) -> (names: Vec<String>)
        ensures
            names.deep_view() == display_names(self@),
    {
        self.registry.snapshot().display_names()
    }
}

} // verus!
