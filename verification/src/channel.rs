//! The outbound channel of a client: a bounded queue from tokio whose sending
//! half the relay holds and whose receiving half the transport drains.
//!
//! Nothing in this file is proved. It declares tokio's types and states, of
//! the three tokio functions the relay calls, what their source shows.
//! Whatever depends on what the receiving half does is left open.

use vstd::prelude::*;
use crate::broadcast::Delivery;
use crate::message::ChatMessage;

verus! {

/// tokio's `mpsc::Sender`: the sending half of a bounded channel.
#[verifier::external_type_specification]
#[verifier::external_body]
#[verifier::reject_recursive_types(T)]
pub struct ExSender<T>(tokio::sync::mpsc::Sender<T>);

/// tokio's `mpsc::Receiver`: the receiving half of a bounded channel.
#[verifier::external_type_specification]
#[verifier::external_body]
#[verifier::reject_recursive_types(T)]
pub struct ExReceiver<T>(tokio::sync::mpsc::Receiver<T>);

/// The most messages a tokio channel can be asked to buffer: the limit of
/// tokio's semaphore, `usize::MAX >> 3`.
pub const MAX_CHANNEL_CAPACITY: usize = usize::MAX / 8;

/// The number of messages that the channel of this sender was opened to
/// buffer: what tokio's `Sender::max_capacity` reports of it.
pub uninterp spec fn capacity_of(sender: tokio::sync::mpsc::Sender<ChatMessage>) -> nat;

/// `tokio::sync::mpsc::channel`: opens a bounded channel that buffers up to
/// `capacity` messages. tokio panics on a capacity of zero or above its
/// semaphore's limit, so both are excluded. Of the two halves only the
/// capacity they were opened with is claimed.
#[verifier::external_body]
pub(crate) fn open_channel(capacity: usize) -> (halves: (
    tokio::sync::mpsc::Sender<ChatMessage>,
    tokio::sync::mpsc::Receiver<ChatMessage>,
))
    requires
        0 < capacity <= MAX_CHANNEL_CAPACITY,
    ensures
        capacity_of(halves.0) == capacity,
{
    tokio::sync::mpsc::channel(capacity)
}

/// `Sender::clone`: another handle on the same channel. A sender holds
/// nothing but its channel, so the two handles are taken to be equal.
pub assume_specification<T>[ <tokio::sync::mpsc::Sender<T> as Clone>::clone ](
    sender: &tokio::sync::mpsc::Sender<T>,
) -> (handle: tokio::sync::mpsc::Sender<T>)
    ensures
        handle == *sender,
;

/// `Sender::try_send`: one attempt to enqueue `message`, which never waits.
/// tokio answers with success, with `Full` or with `Closed`. Which of the
/// three it is depends on what the receiving half has done by then, so
/// nothing is claimed of the answer.
#[verifier::external_body]
pub(crate) fn try_send(
    sender: &tokio::sync::mpsc::Sender<ChatMessage>,
    message: ChatMessage,
) -> (answer: Delivery) {
    match sender.try_send(message) {
        Ok(()) => Delivery::Delivered,
        Err(tokio::sync::mpsc::error::TrySendError::Full(_)) => Delivery::ChannelFull,
        Err(tokio::sync::mpsc::error::TrySendError::Closed(_)) => Delivery::ChannelClosed,
    }
}

} // verus!
