//! The registry of connected clients.
//!
//! A registry is a sequence of entries in the order in which the clients
//! registered, and no client id occurs in it twice.

use vstd::prelude::*;
use tokio::sync::mpsc::Sender;
use crate::message::ChatMessage;

verus! {

/// What one registry entry is: the client's id, the name it currently goes
/// by, and the sending half of its outbound channel.
pub struct EntryView {
    pub client_id: Seq<char>,
    pub display_name: Seq<char>,
    pub channel: Sender<ChatMessage>,
}

/// No client id occurs twice.
pub open spec fn distinct_ids(entries: Seq<EntryView>) -> bool {
    forall|i: int, j: int|
        0 <= i < entries.len() && 0 <= j < entries.len() && i != j
            ==> #[trigger] entries[i].client_id != #[trigger] entries[j].client_id
}

/// Some entry carries this client id.
pub open spec fn contains_id(entries: Seq<EntryView>, client_id: Seq<char>) -> bool {
    exists|i: int| 0 <= i < entries.len() && #[trigger] entries[i].client_id == client_id
}

/// The entries after a registration of `entry` was asked for: with `entry` at
/// the end, unless its client id was registered already.
pub open spec fn registered(entries: Seq<EntryView>, entry: EntryView) -> Seq<EntryView> {
    if contains_id(entries, entry.client_id) {
        entries
    } else {
        entries.push(entry)
    }
}

/// The entry as it is once the client `client_id` goes by `name`: renamed if
/// it is that client's, untouched otherwise.
pub open spec fn renamed(entry: EntryView, client_id: Seq<char>, name: Seq<char>) -> EntryView {
    if entry.client_id == client_id {
        EntryView { display_name: name, ..entry }
    } else {
        entry
    }
}

/// The entries after the client `client_id` took the name `name`.
pub open spec fn with_display_name(
    entries: Seq<EntryView>,
    client_id: Seq<char>,
    name: Seq<char>,
) -> Seq<EntryView> {
    entries.map_values(|entry: EntryView| renamed(entry, client_id, name))
}

/// The entries that are left once the client `client_id` is gone.
pub open spec fn without(entries: Seq<EntryView>, client_id: Seq<char>) -> Seq<EntryView> {
    entries.filter(|entry: EntryView| entry.client_id != client_id)
}

/// The display names of the entries, in their order.
pub open spec fn display_names(entries: Seq<EntryView>) -> Seq<Seq<char>> {
    entries.map_values(|entry: EntryView| entry.display_name)
}

/// The client `client_id` is registered and goes by `name`.
pub open spec fn has_name(entries: Seq<EntryView>, client_id: Seq<char>, name: Seq<char>) -> bool {
    exists|i: int|
        0 <= i < entries.len() && #[trigger] entries[i].client_id == client_id
            && entries[i].display_name == name
}

/// Why a registration was turned down.
#[derive(Debug, Clone, Copy, PartialEq, Eq, Structural)]
pub enum RegistryError {
    /// The client id is registered already.
    DuplicateClient,
}

/// One connected client.
#[derive(Debug)]
pub struct ClientEntry {
    client_id: String,
    display_name: String,
    channel: Sender<ChatMessage>,
}

impl View for ClientEntry {
    type V = EntryView;

    closed spec fn view(&self) -> EntryView {
        EntryView {
            client_id: self.client_id@,
            display_name: self.display_name@,
            channel: self.channel,
        }
    }
}

impl ClientEntry {
    /// An entry for the client `client_id`, known as `display_name`, which is
    /// reached through `channel`.
    pub fn new(client_id: String, display_name: String, channel: Sender<ChatMessage>) -> (entry:
        ClientEntry)
        ensures
            entry@ == (EntryView {
                client_id: client_id@,
                display_name: display_name@,
                channel,
            }),
    {
        ClientEntry { client_id, display_name, channel }
    }

    /// The client's id.
    pub fn client_id(&self) -> (id: &String)
        ensures
            id@ == self@.client_id,
    {
        &self.client_id
    }

    /// The name the client currently goes by.
    pub fn display_name(&self) -> (name: &String)
        ensures
            name@ == self@.display_name,
    {
        &self.display_name
    }

    /// The sending half of the client's outbound channel.
    pub fn channel(&self) -> (channel: &Sender<ChatMessage>)
        ensures
            *channel == self@.channel,
    {
        &self.channel
    }
}

impl Clone for ClientEntry {
    /// A copy with the same id and name, and a handle on the same channel.
    fn clone(&self) -> (copy: ClientEntry)
        ensures
            copy@ == self@,
    {
        ClientEntry {
            client_id: self.client_id.clone(),
            display_name: self.display_name.clone(),
            channel: self.channel.clone(),
        }
    }
}

/// A registry that holds no entry of `client_id` loses nothing when that
/// client is taken out.
pub proof fn lemma_without_absent(entries: Seq<EntryView>, client_id: Seq<char>)
    requires
        !contains_id(entries, client_id),
    ensures
        without(entries, client_id) == entries,
    decreases entries.len(),
{
    reveal(Seq::filter);
    if entries.len() > 0 {
        let front = entries.drop_last();
        assert forall|i: int| 0 <= i < front.len() implies #[trigger] front[i].client_id
            != client_id by {
            assert(entries[i].client_id != client_id);
        }
        lemma_without_absent(front, client_id);
        assert(entries.last().client_id != client_id);
        assert(front.push(entries.last()) =~= entries);
    }
}

/// Taking a client out leaves no entry of it behind.
pub proof fn lemma_without_gone(entries: Seq<EntryView>, client_id: Seq<char>)
    ensures
        !contains_id(without(entries, client_id), client_id),
{
    let kept = |entry: EntryView| entry.client_id != client_id;
    assert forall|i: int| 0 <= i < entries.filter(kept).len() implies #[trigger] entries.filter(
        kept,
    )[i].client_id != client_id by {
        entries.lemma_filter_pred(kept, i);
    }
}

/// Where ids are distinct, taking a client out removes the one entry that
/// carries its id and keeps the others in place.
pub proof fn lemma_without_at(entries: Seq<EntryView>, client_id: Seq<char>, at: int)
    requires
        distinct_ids(entries),
        0 <= at < entries.len(),
        entries[at].client_id == client_id,
    ensures
        without(entries, client_id) == entries.remove(at),
{
    let kept = |entry: EntryView| entry.client_id != client_id;
    let before = entries.take(at);
    let after = entries.skip(at + 1);
    let hit = seq![entries[at]];
    assert(entries =~= before + hit + after);
    assert(entries.remove(at) =~= before + after);
    assert(!contains_id(before, client_id)) by {
        assert forall|i: int| 0 <= i < before.len() implies #[trigger] before[i].client_id
            != client_id by {
            assert(before[i] == entries[i]);
        }
    }
    assert(!contains_id(after, client_id)) by {
        assert forall|i: int| 0 <= i < after.len() implies #[trigger] after[i].client_id
            != client_id by {
            assert(after[i] == entries[i + at + 1]);
        }
    }
    lemma_without_absent(before, client_id);
    lemma_without_absent(after, client_id);
    assert(hit.filter(kept) =~= Seq::<EntryView>::empty()) by {
        reveal_with_fuel(Seq::filter, 2);
        assert(hit.drop_last() =~= Seq::<EntryView>::empty());
    }
    Seq::filter_distributes_over_add(before + hit, after, kept);
    Seq::filter_distributes_over_add(before, hit, kept);
    assert(before + Seq::<EntryView>::empty() =~= before);
}

/// Where ids are distinct, giving a client the name it already goes by
/// changes nothing.
pub proof fn lemma_renaming_to_current_name(
    entries: Seq<EntryView>,
    client_id: Seq<char>,
    name: Seq<char>,
)
    requires
        distinct_ids(entries),
        has_name(entries, client_id, name),
    ensures
        with_display_name(entries, client_id, name) == entries,
{
    let at = choose|i: int|
        0 <= i < entries.len() && #[trigger] entries[i].client_id == client_id
            && entries[i].display_name == name;
    assert forall|i: int| 0 <= i < entries.len() implies renamed(
        #[trigger] entries[i],
        client_id,
        name,
    ) == entries[i] by {
        if entries[i].client_id == client_id {
            assert(i == at);
        }
    }
    assert(with_display_name(entries, client_id, name) =~= entries);
}

/// The registry of connected clients, in the order in which they registered.
#[derive(Debug)]
pub struct ClientRegistry {
    entries: Vec<ClientEntry>,
}

impl View for ClientRegistry {
    type V = Seq<EntryView>;

    closed spec fn view(&self) -> Seq<EntryView> {
        self.entries@.map_values(|entry: ClientEntry| entry@)
    }
}

impl ClientRegistry {
    /// A registry is well formed when no client id occurs in it twice.
    pub open spec fn wf(&self) -> bool {
        distinct_ids(self@)
    }

    /// A registry with no client in it.
    pub fn new() -> (registry: ClientRegistry)
        ensures
            registry.wf(),
            registry@ == Seq::<EntryView>::empty(),
    {
        ClientRegistry { entries: Vec::new() }
    }

    /// The number of registered clients.
    pub fn len(&self) -> (count: usize)
        ensures
            count == self@.len(),
    {
        self.entries.len()
    }

    /// Whether no client is registered.
    pub fn is_empty(&self) -> (empty: bool)
        ensures
            empty == (self@.len() == 0),
    {
        self.entries.len() == 0
    }

    /// Where the entry of `client_id` stands, if there is one.
    fn position(&self, client_id: &str) -> (found: Option<usize>)
        ensures
            match found {
                Some(at) => at < self@.len() && self@[at as int].client_id == client_id@,
                None => !contains_id(self@, client_id@),
            },
    {
        let mut at: usize = 0;
        while at < self.entries.len()
            invariant
                at <= self.entries.len(),
                forall|i: int| 0 <= i < at ==> #[trigger] self@[i].client_id != client_id@,
            decreases self.entries.len() - at,
        {
            if *self.entries[at].client_id.as_str() == *client_id {
                return Some(at);
            }
            at += 1;
        }
        None
    }

    /// Whether `client_id` is registered.
    pub fn contains(&self, client_id: &str) -> (present: bool)
        ensures
            present == contains_id(self@, client_id@),
    {
        self.position(client_id).is_some()
    }

    /// The name the client `client_id` goes by, or `None` if it is not
    /// registered.
    pub fn display_name_of(&self, client_id: &str) -> (name: Option<String>)
        ensures
            match name {
                Some(name) => has_name(self@, client_id@, name@),
                None => !contains_id(self@, client_id@),
            },
    {
        match self.position(client_id) {
            Some(at) => Some(self.entries[at].display_name.clone()),
            None => None,
        }
    }

    /// A copy of every entry as it is now, in registration order. The copy
    /// does not follow later changes to the registry.
    pub fn snapshot(&self) -> (copy: RegistrySnapshot)
        ensures
            copy@ == self@,
    {
        let mut entries: Vec<ClientEntry> = Vec::new();
        let mut at: usize = 0;
        while at < self.entries.len()
            invariant
                at <= self.entries.len(),
                entries@.len() == at,
                forall|i: int| 0 <= i < at ==> #[trigger] entries@[i]@ == self.entries@[i]@,
            decreases self.entries.len() - at,
        {
            entries.push(self.entries[at].clone());
            at += 1;
        }
        let copy = RegistrySnapshot { entries };
        proof {
            assert(copy@ =~= self@);
        }
        copy
    }

    /// Registers a client under `client_id`, known as `display_name` and
    /// reached through `channel`.
    ///
    /// An id that is registered already is turned down with
    /// `DuplicateClient`, and the registry stays as it was.
    pub fn register(
        &mut self,
        client_id: String,
        display_name: String,
        channel: Sender<ChatMessage>,
    ) -> (outcome: Result<(), RegistryError>)
        requires
            old(self).wf(),
        ensures
            final(self).wf(),
            outcome == (if contains_id(old(self)@, client_id@) {
                Err::<(), RegistryError>(RegistryError::DuplicateClient)
            } else {
                Ok::<(), RegistryError>(())
            }),
            final(self)@ == registered(
                old(self)@,
                EntryView { client_id: client_id@, display_name: display_name@, channel },
            ),
    {
        match self.position(client_id.as_str()) {
            Some(_) => Err(RegistryError::DuplicateClient),
            None => {
                let entry = ClientEntry::new(client_id, display_name, channel);
                proof {
                    let grown = self@.push(entry@);
                    assert(self.entries@.push(entry).map_values(|entry: ClientEntry| entry@)
                        =~= grown);
                    assert(distinct_ids(grown));
                }
                self.entries.push(entry);
                Ok(())
            },
        }
    }

    /// Gives the client `client_id` the name `new_name`, and says whether the
    /// client was registered. For a client that is gone nothing changes.
    pub fn update_display_name(&mut self, client_id: &str, new_name: String) -> (present: bool)
        requires
            old(self).wf(),
        ensures
            final(self).wf(),
            present == contains_id(old(self)@, client_id@),
            final(self)@ == with_display_name(old(self)@, client_id@, new_name@),
    {
        match self.position(client_id) {
            Some(at) => {
                proof {
                    let target = with_display_name(self@, client_id@, new_name@);
                    assert(distinct_ids(target));
                }
                self.entries[at].display_name = new_name;
                proof {
                    assert(self@ =~= with_display_name(old(self)@, client_id@, new_name@));
                }
                true
            },
            None => {
                proof {
                    assert(self@ =~= with_display_name(self@, client_id@, new_name@));
                }
                false
            },
        }
    }

    /// Takes the client `client_id` out, and says whether it was registered.
    /// For a client that is gone nothing changes.
    pub fn remove(&mut self, client_id: &str) -> (present: bool)
        requires
            old(self).wf(),
        ensures
            final(self).wf(),
            present == contains_id(old(self)@, client_id@),
            final(self)@ == without(old(self)@, client_id@),
            !contains_id(final(self)@, client_id@),
    {
        proof {
            lemma_without_gone(self@, client_id@);
        }
        match self.position(client_id) {
            Some(at) => {
                proof {
                    lemma_without_at(self@, client_id@, at as int);
                    assert(self.entries@.remove(at as int).map_values(|entry: ClientEntry| entry@)
                        =~= self@.remove(at as int));
                    assert(distinct_ids(self@.remove(at as int)));
                }
                self.entries.remove(at);
                true
            },
            None => {
                proof {
                    lemma_without_absent(self@, client_id@);
                }
                false
            },
        }
    }
}

/// The entries of a registry as they were at one moment.
#[derive(Debug)]
pub struct RegistrySnapshot {
    entries: Vec<ClientEntry>,
}

impl View for RegistrySnapshot {
    type V = Seq<EntryView>;

    closed spec fn view(&self) -> Seq<EntryView> {
        self.entries@.map_values(|entry: ClientEntry| entry@)
    }
}

impl RegistrySnapshot {
    /// The number of entries.
    pub fn len(&self) -> (count: usize)
        ensures
            count == self@.len(),
    {
        self.entries.len()
    }

    /// The entry at position `at`.
    pub fn entry(&self, at: usize) -> (entry: &ClientEntry)
        requires
            at < self@.len(),
        ensures
            entry@ == self@[at as int],
    {
        &self.entries[at]
    }

    /// The display names of the entries, in their order.
    pub fn display_names(&self) -> (names: Vec<String>)
        ensures
            names.deep_view() == display_names(self@),
    {
        let mut names: Vec<String> = Vec::new();
        let mut at: usize = 0;
        while at < self.entries.len()
            invariant
                at <= self.entries.len(),
                names@.len() == at,
                forall|i: int| 0 <= i < at ==> #[trigger] names@[i]@ == self@[i].display_name,
            decreases self.entries.len() - at,
        {
            names.push(self.entries[at].display_name.clone());
            at += 1;
        }
        proof {
            assert(names.deep_view() =~= display_names(self@));
        }
        names
    }
}

} // verus!
