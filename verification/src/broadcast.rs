//! Fan-out: one copy of a message to every client of a snapshot.
//!
//! Delivery is best effort. Each client gets exactly one attempt, which never
//! waits; a message that a channel does not take is dropped for that client
//! alone and is not tried again.

use vstd::prelude::*;
use crate::channel::try_send;
use crate::message::ChatMessage;
use crate::registry::{ClientEntry, EntryView, RegistrySnapshot};

verus! {

/// How one attempt to enqueue ended.
#[derive(Debug, Clone, Copy, PartialEq, Eq, Structural)]
pub enum Delivery {
    /// The channel took the message.
    Delivered,
    /// The channel held as many messages as it can; the message was dropped.
    ChannelFull,
    /// The receiving half is gone; the message was dropped.
    ChannelClosed,
}

/// What became of a message for one client.
#[derive(Debug, PartialEq, Eq)]
pub struct DeliveryRecord {
    /// The client the attempt was made for.
    pub client_id: String,
    /// The name that client went by in the snapshot.
    pub display_name: String,
    /// How the attempt ended.
    pub outcome: Delivery,
}

/// The record names the client of this entry.
pub open spec fn addressed_to(record: DeliveryRecord, entry: EntryView) -> bool {
    record.client_id@ == entry.client_id && record.display_name@ == entry.display_name
}

/// The report holds one record for each entry, in the entries' order.
pub open spec fn covers(report: Seq<DeliveryRecord>, entries: Seq<EntryView>) -> bool {
    &&& report.len() == entries.len()
    &&& forall|i: int| 0 <= i < report.len() ==> addressed_to(#[trigger] report[i], entries[i])
}

impl DeliveryRecord {
    /// The record of an attempt for the client of `entry` that the channel
    /// answered with `outcome`.
    pub fn from_attempt(entry: &ClientEntry, outcome: Delivery) -> (record: DeliveryRecord)
        ensures
            addressed_to(record, entry@),
            record.outcome == outcome,
    {
        DeliveryRecord {
            client_id: entry.client_id().clone(),
            display_name: entry.display_name().clone(),
            outcome,
        }
    }

    /// Whether the channel took the message.
    pub fn is_delivered(&self) -> (delivered: bool)
        ensures
            delivered == (self.outcome == Delivery::Delivered),
    {
        match self.outcome {
            Delivery::Delivered => true,
            _ => false,
        }
    }
}

impl Clone for DeliveryRecord {
    /// A copy that names the same client and the same outcome.
    fn clone(&self) -> (copy: DeliveryRecord)
        ensures
            copy == *self,
    {
        DeliveryRecord {
            client_id: self.client_id.clone(),
            display_name: self.display_name.clone(),
            outcome: self.outcome,
        }
    }
}

/// Offers a copy of `message` to the channel of `entry`, once and without
/// waiting, and records how the channel answered.
pub fn deliver(entry: &ClientEntry, message: &ChatMessage) -> (record: DeliveryRecord)
    ensures
        addressed_to(record, entry@),
{
    let outcome = try_send(entry.channel(), message.clone());
    DeliveryRecord::from_attempt(entry, outcome)
}

/// Offers a copy of `message` to every client of the snapshot, the sender's
/// own entry included, in the snapshot's order.
///
/// Every client gets its attempt whatever became of the attempts before it:
/// the report holds one record per entry.
pub fn broadcast(snapshot: &RegistrySnapshot, message: &ChatMessage) -> (report: Vec<
    DeliveryRecord,
>)
    ensures
        covers(report@, snapshot@),
{
    let mut report: Vec<DeliveryRecord> = Vec::new();
    let mut at: usize = 0;
    while at < snapshot.len()
        invariant
            at <= snapshot@.len(),
            report@.len() == at,
            forall|i: int| 0 <= i < at ==> addressed_to(#[trigger] report@[i], snapshot@[i]),
        decreases snapshot@.len() - at,
    {
        report.push(deliver(snapshot.entry(at), message));
        at += 1;
    }
    report
}

} // verus!
