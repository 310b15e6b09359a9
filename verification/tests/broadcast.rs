use chat_relay::broadcast::{broadcast, deliver, Delivery, DeliveryRecord};
use chat_relay::message::ChatMessage;
use chat_relay::registry::{ClientEntry, ClientRegistry};
use tokio::sync::mpsc::error::TryRecvError;
use tokio::sync::mpsc::{channel, Receiver};

fn message(username: &str, text: &str) -> ChatMessage {
    ChatMessage::new(username.to_string(), text.to_string())
}

fn connect(registry: &mut ClientRegistry, id: &str, capacity: usize) -> Receiver<ChatMessage> {
    let (tx, rx) = channel::<ChatMessage>(capacity);
    registry.register(id.to_string(), format!("name-{id}"), tx).unwrap();
    rx
}

#[test]
fn broadcast_reaches_every_client_the_sender_included() {
    let mut registry = ClientRegistry::new();
    let mut receivers: Vec<Receiver<ChatMessage>> = Vec::new();
    for id in ["a", "b", "c", "d", "e"] {
        receivers.push(connect(&mut registry, id, 8));
    }
    let sent = message("name-c", "hello all");
    let report = broadcast(&registry.snapshot(), &sent);
    assert_eq!(report.len(), 5);
    for (record, id) in report.iter().zip(["a", "b", "c", "d", "e"]) {
        assert_eq!(record.client_id, id);
        assert_eq!(record.display_name, format!("name-{id}"));
        assert_eq!(record.outcome, Delivery::Delivered);
        assert!(record.is_delivered());
    }
    for rx in receivers.iter_mut() {
        assert_eq!(rx.try_recv(), Ok(sent.clone()));
        assert_eq!(rx.try_recv(), Err(TryRecvError::Empty));
    }
}

#[test]
fn broadcast_to_nobody_reports_nothing() {
    let registry = ClientRegistry::new();
    let report = broadcast(&registry.snapshot(), &message("a", "anyone?"));
    assert!(report.is_empty());
}

#[test]
fn full_channel_drops_for_that_client_only() {
    let mut registry = ClientRegistry::new();
    let mut rx_a = connect(&mut registry, "a", 4);
    let mut rx_slow = connect(&mut registry, "slow", 1);
    let mut rx_c = connect(&mut registry, "c", 4);
    let first = message("a", "one");
    let second = message("a", "two");
    let report = broadcast(&registry.snapshot(), &first);
    assert!(report.iter().all(|record| record.outcome == Delivery::Delivered));
    let report = broadcast(&registry.snapshot(), &second);
    assert_eq!(report.len(), 3);
    assert_eq!(report[0].outcome, Delivery::Delivered);
    assert_eq!(report[1].client_id, "slow");
    assert_eq!(report[1].outcome, Delivery::ChannelFull);
    assert!(!report[1].is_delivered());
    assert_eq!(report[2].outcome, Delivery::Delivered);
    assert_eq!(rx_a.try_recv(), Ok(first.clone()));
    assert_eq!(rx_a.try_recv(), Ok(second.clone()));
    assert_eq!(rx_c.try_recv(), Ok(first.clone()));
    assert_eq!(rx_c.try_recv(), Ok(second.clone()));
    assert_eq!(rx_slow.try_recv(), Ok(first));
    assert_eq!(rx_slow.try_recv(), Err(TryRecvError::Empty));
}

#[test]
fn dropped_message_is_not_tried_again() {
    let mut registry = ClientRegistry::new();
    let mut rx = connect(&mut registry, "slow", 1);
    let first = message("x", "one");
    let second = message("x", "two");
    let third = message("x", "three");
    assert_eq!(broadcast(&registry.snapshot(), &first)[0].outcome, Delivery::Delivered);
    assert_eq!(broadcast(&registry.snapshot(), &second)[0].outcome, Delivery::ChannelFull);
    assert_eq!(rx.try_recv(), Ok(first));
    assert_eq!(rx.try_recv(), Err(TryRecvError::Empty));
    assert_eq!(broadcast(&registry.snapshot(), &third)[0].outcome, Delivery::Delivered);
    assert_eq!(rx.try_recv(), Ok(third));
    assert_eq!(rx.try_recv(), Err(TryRecvError::Empty));
}

#[test]
fn closed_channel_is_reported_and_others_are_served() {
    let mut registry = ClientRegistry::new();
    let rx_gone = connect(&mut registry, "gone", 4);
    let mut rx_b = connect(&mut registry, "b", 4);
    drop(rx_gone);
    let sent = message("b", "still here");
    let report = broadcast(&registry.snapshot(), &sent);
    assert_eq!(report.len(), 2);
    assert_eq!(report[0].client_id, "gone");
    assert_eq!(report[0].outcome, Delivery::ChannelClosed);
    assert_eq!(report[1].outcome, Delivery::Delivered);
    assert_eq!(rx_b.try_recv(), Ok(sent));
    assert!(registry.contains("gone"));
}

#[test]
fn each_channel_keeps_the_order_of_the_broadcasts() {
    let mut registry = ClientRegistry::new();
    let mut rx_a = connect(&mut registry, "a", 16);
    let mut rx_b = connect(&mut registry, "b", 16);
    let texts = ["1", "2", "3", "4", "5"];
    for text in texts {
        let from = if text == "3" { "name-b" } else { "name-a" };
        broadcast(&registry.snapshot(), &message(from, text));
    }
    for rx in [&mut rx_a, &mut rx_b] {
        for text in texts {
            let got = rx.try_recv().unwrap();
            assert_eq!(got.message(), text);
        }
        assert_eq!(rx.try_recv(), Err(TryRecvError::Empty));
    }
}

#[test]
fn broadcast_passes_the_message_on_unchanged() {
    let mut registry = ClientRegistry::new();
    let mut rx = connect(&mut registry, "a", 4);
    let sent = message("somebody else entirely", "  spaces kept  \u{1F600}");
    broadcast(&registry.snapshot(), &sent);
    let got = rx.try_recv().unwrap();
    assert_eq!(got.username(), "somebody else entirely");
    assert_eq!(got.message(), "  spaces kept  \u{1F600}");
}

#[test]
fn broadcast_goes_to_the_snapshot_not_the_registry() {
    let mut registry = ClientRegistry::new();
    let mut rx_a = connect(&mut registry, "a", 4);
    let snapshot = registry.snapshot();
    let mut rx_late = connect(&mut registry, "late", 4);
    let sent = message("a", "early");
    let report = broadcast(&snapshot, &sent);
    assert_eq!(report.len(), 1);
    assert_eq!(rx_a.try_recv(), Ok(sent));
    assert_eq!(rx_late.try_recv(), Err(TryRecvError::Empty));
}

#[test]
fn deliver_records_the_entry_and_enqueues_once() {
    let (tx, mut rx) = channel::<ChatMessage>(2);
    let entry = ClientEntry::new("id-7".to_string(), "seven".to_string(), tx);
    let sent = message("seven", "ping");
    let record = deliver(&entry, &sent);
    assert_eq!(
        record,
        DeliveryRecord {
            client_id: "id-7".to_string(),
            display_name: "seven".to_string(),
            outcome: Delivery::Delivered,
        }
    );
    assert_eq!(rx.try_recv(), Ok(sent));
    assert_eq!(rx.try_recv(), Err(TryRecvError::Empty));
}

#[test]
fn from_attempt_records_each_answer_of_the_channel() {
    let (tx, _rx) = channel::<ChatMessage>(1);
    let entry = ClientEntry::new("id".to_string(), "name".to_string(), tx);
    let delivered = DeliveryRecord::from_attempt(&entry, Delivery::Delivered);
    assert_eq!(delivered.outcome, Delivery::Delivered);
    assert_eq!(delivered.client_id, "id");
    assert_eq!(delivered.display_name, "name");
    let full = DeliveryRecord::from_attempt(&entry, Delivery::ChannelFull);
    assert_eq!(full.outcome, Delivery::ChannelFull);
    let closed = DeliveryRecord::from_attempt(&entry, Delivery::ChannelClosed);
    assert_eq!(closed.outcome, Delivery::ChannelClosed);
    assert_eq!(closed.client_id, "id");
    assert_eq!(closed.clone(), closed);
}

#[test]
fn entry_clone_is_a_handle_on_the_same_channel() {
    let (tx, mut rx) = channel::<ChatMessage>(4);
    let entry = ClientEntry::new("id".to_string(), "name".to_string(), tx);
    let copy = entry.clone();
    assert_eq!(copy.client_id(), "id");
    assert_eq!(copy.display_name(), "name");
    assert!(copy.channel().same_channel(entry.channel()));
    let first = message("name", "through the copy");
    let second = message("name", "through the entry");
    assert!(deliver(&copy, &first).is_delivered());
    assert!(deliver(&entry, &second).is_delivered());
    assert_eq!(rx.try_recv(), Ok(first));
    assert_eq!(rx.try_recv(), Ok(second));
}
