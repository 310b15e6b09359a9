//! What holds of the relay whatever its clients do.
//!
//! Each statement is over the plain sequences of entries and the functions
//! on them by which the registry, the sessions and the broadcast say what
//! they do.

use vstd::prelude::*;
use crate::broadcast::{addressed_to, covers, DeliveryRecord};
use crate::registry::{
    contains_id, display_names, distinct_ids, has_name, lemma_without_absent, lemma_without_gone,
    registered, with_display_name, without, EntryView,
};
use crate::session::{registry_after, state_after, InboundEvent, SessionState};

verus! {

/// A client that was registered and then removed is not in the registry,
/// and the registry is what removing it before the registration would have
/// left. For a client that was new, that is the registry as it was.
pub proof fn law_register_then_remove(entries: Seq<EntryView>, entry: EntryView)
    requires
        distinct_ids(entries),
    ensures
        !contains_id(without(registered(entries, entry), entry.client_id), entry.client_id),
        without(registered(entries, entry), entry.client_id) == without(entries, entry.client_id),
        !contains_id(entries, entry.client_id) ==> without(
            registered(entries, entry),
            entry.client_id,
        ) == entries,
{
    let id = entry.client_id;
    lemma_without_gone(registered(entries, entry), id);
    if !contains_id(entries, id) {
        reveal(Seq::filter);
        assert(entries.push(entry).drop_last() =~= entries);
        assert(without(entries.push(entry), id) == without(entries, id));
        lemma_without_absent(entries, id);
    }
}

/// Removing a client that is not registered changes nothing.
pub proof fn law_remove_absent_is_noop(entries: Seq<EntryView>, client_id: Seq<char>)
    requires
        !contains_id(entries, client_id),
    ensures
        without(entries, client_id) == entries,
{
    lemma_without_absent(entries, client_id);
}

/// Taking a client out neither adds nor loses an entry of another client:
/// where `wanted` holds of entries of other clients only, it holds of some
/// entry that is left exactly if it held of some entry before.
proof fn lemma_without_keeps(
    entries: Seq<EntryView>,
    client_id: Seq<char>,
    wanted: spec_fn(EntryView) -> bool,
)
    requires
        forall|entry: EntryView| #[trigger] wanted(entry) ==> entry.client_id != client_id,
    ensures
        (exists|i: int|
            0 <= i < without(entries, client_id).len() && wanted(
                #[trigger] without(entries, client_id)[i],
            )) == (exists|i: int| 0 <= i < entries.len() && wanted(#[trigger] entries[i])),
    decreases entries.len(),
{
    reveal(Seq::filter);
    if entries.len() > 0 {
        let front = entries.drop_last();
        let left = without(entries, client_id);
        let front_left = without(front, client_id);
        lemma_without_keeps(front, client_id, wanted);
        if exists|i: int| 0 <= i < entries.len() && wanted(#[trigger] entries[i]) {
            let at = choose|i: int| 0 <= i < entries.len() && wanted(#[trigger] entries[i]);
            if at < front.len() {
                assert(wanted(front[at]));
                let kept_at = choose|i: int|
                    0 <= i < front_left.len() && wanted(#[trigger] front_left[i]);
                assert(wanted(left[kept_at]));
            } else {
                assert(wanted(left[left.len() - 1]));
            }
        }
        if exists|i: int| 0 <= i < left.len() && wanted(#[trigger] left[i]) {
            let at = choose|i: int| 0 <= i < left.len() && wanted(#[trigger] left[i]);
            if at < front_left.len() {
                assert(wanted(front_left[at]));
                let was_at = choose|i: int| 0 <= i < front.len() && wanted(#[trigger] front[i]);
                assert(wanted(entries[was_at]));
            } else {
                assert(wanted(entries[entries.len() - 1]));
            }
        }
    }
}

/// Removing a client touches no other: every other client is registered
/// afterwards exactly if it was before, and under the same name.
pub proof fn law_remove_spares_others(
    entries: Seq<EntryView>,
    client_id: Seq<char>,
    other: Seq<char>,
    name: Seq<char>,
)
    requires
        other != client_id,
    ensures
        contains_id(without(entries, client_id), other) == contains_id(entries, other),
        has_name(without(entries, client_id), other, name) == has_name(entries, other, name),
{
    let is_other = |entry: EntryView| entry.client_id == other;
    let is_other_named = |entry: EntryView| entry.client_id == other && entry.display_name == name;
    lemma_without_keeps(entries, client_id, is_other);
    lemma_without_keeps(entries, client_id, is_other_named);
}

/// A rename of a client that is then removed, or that was removed before,
/// leaves the registry as the removal alone does.
pub proof fn law_rename_and_remove(entries: Seq<EntryView>, client_id: Seq<char>, name: Seq<char>)
    ensures
        without(with_display_name(entries, client_id, name), client_id) == without(
            entries,
            client_id,
        ),
        with_display_name(without(entries, client_id), client_id, name) == without(
            entries,
            client_id,
        ),
    decreases entries.len(),
{
    let gone = without(entries, client_id);
    lemma_without_gone(entries, client_id);
    assert(with_display_name(gone, client_id, name) =~= gone);
    reveal(Seq::filter);
    if entries.len() > 0 {
        let front = entries.drop_last();
        law_rename_and_remove(front, client_id, name);
        assert(with_display_name(entries, client_id, name).drop_last() =~= with_display_name(
            front,
            client_id,
            name,
        ));
    } else {
        assert(with_display_name(entries, client_id, name) =~= entries);
    }
}

/// Cleaning up after a disconnect is idempotent: removing a client a second
/// time changes nothing, and once removed the client is not listed, whether
/// a rename of it came before the removal, after it, or not at all.
pub proof fn law_cleanup_is_idempotent(
    entries: Seq<EntryView>,
    client_id: Seq<char>,
    name: Seq<char>,
)
    ensures
        without(without(entries, client_id), client_id) == without(entries, client_id),
        !contains_id(without(entries, client_id), client_id),
        !contains_id(without(with_display_name(entries, client_id, name), client_id), client_id),
        !contains_id(with_display_name(without(entries, client_id), client_id, name), client_id),
{
    lemma_without_gone(entries, client_id);
    lemma_without_absent(without(entries, client_id), client_id);
    law_rename_and_remove(entries, client_id, name);
}

/// A closed session stays closed and leaves the registry alone, whatever
/// reaches it: the one removal is the one that closed it.
pub proof fn law_closed_is_final(
    entries: Seq<EntryView>,
    client_id: Seq<char>,
    event: InboundEvent,
)
    ensures
        state_after(SessionState::Closed, event) == SessionState::Closed,
        registry_after(entries, client_id, SessionState::Closed, event) == entries,
{
}

/// The end of the inbound stream, clean or not, closes an active session
/// and takes its client out of the registry.
pub proof fn law_stream_end_removes(
    entries: Seq<EntryView>,
    client_id: Seq<char>,
    event: InboundEvent,
)
    requires
        !(event is Message),
    ensures
        state_after(SessionState::Active, event) == SessionState::Closed,
        !contains_id(registry_after(entries, client_id, SessionState::Active, event), client_id),
{
    lemma_without_gone(entries, client_id);
}

/// Once a message of a registered client has been handled, the registry
/// shows the username that the message declared, and the list of names
/// shows it in the client's place and every other name as it was. A later
/// message with another username replaces the first.
pub proof fn law_username_propagates(
    entries: Seq<EntryView>,
    client_id: Seq<char>,
    first: Seq<char>,
    second: Seq<char>,
)
    requires
        distinct_ids(entries),
        contains_id(entries, client_id),
    ensures
        has_name(with_display_name(entries, client_id, first), client_id, first),
        distinct_ids(with_display_name(entries, client_id, first)),
        with_display_name(with_display_name(entries, client_id, first), client_id, second)
            == with_display_name(entries, client_id, second),
        display_names(with_display_name(entries, client_id, first)).len() == entries.len(),
        forall|i: int|
            0 <= i < entries.len() ==> #[trigger] display_names(
                with_display_name(entries, client_id, first),
            )[i] == if entries[i].client_id == client_id {
                first
            } else {
                entries[i].display_name
            },
{
    let once = with_display_name(entries, client_id, first);
    let at = choose|i: int| 0 <= i < entries.len() && #[trigger] entries[i].client_id == client_id;
    assert(once[at].client_id == client_id && once[at].display_name == first);
    assert(with_display_name(once, client_id, second) =~= with_display_name(
        entries,
        client_id,
        second,
    ));
}

/// A report that covers a snapshot holds a record for every client of the
/// snapshot, whoever sent the message and whatever became of the attempts
/// for the others.
pub proof fn law_every_client_is_attempted(
    report: Seq<DeliveryRecord>,
    entries: Seq<EntryView>,
    client_id: Seq<char>,
)
    requires
        covers(report, entries),
        contains_id(entries, client_id),
    ensures
        exists|i: int|
            0 <= i < report.len() && #[trigger] report[i].client_id@ == client_id && addressed_to(
                report[i],
                entries[i],
            ),
{
    let at = choose|i: int| 0 <= i < entries.len() && #[trigger] entries[i].client_id == client_id;
    assert(addressed_to(report[at], entries[at]));
    assert(report[at].client_id@ == client_id);
}

} // verus!
