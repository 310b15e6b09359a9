use chat_relay::message::ChatMessage;
use chat_relay::registry::{ClientRegistry, RegistryError};
use tokio::sync::mpsc::{channel, Sender};

fn sender() -> Sender<ChatMessage> {
    channel::<ChatMessage>(4).0
}

fn names(registry: &ClientRegistry) -> Vec<String> {
    registry.snapshot().display_names()
}

#[test]
fn new_registry_is_empty() {
    let registry = ClientRegistry::new();
    assert_eq!(registry.len(), 0);
    assert!(registry.is_empty());
    assert_eq!(registry.snapshot().len(), 0);
    assert!(names(&registry).is_empty());
}

#[test]
fn register_adds_entry_at_the_end() {
    let mut registry = ClientRegistry::new();
    assert_eq!(registry.register("a".to_string(), "alice".to_string(), sender()), Ok(()));
    assert_eq!(registry.register("b".to_string(), "bob".to_string(), sender()), Ok(()));
    assert_eq!(registry.len(), 2);
    assert!(!registry.is_empty());
    assert!(registry.contains("a"));
    assert!(registry.contains("b"));
    assert!(!registry.contains("c"));
    assert_eq!(names(&registry), vec!["alice".to_string(), "bob".to_string()]);
    let snapshot = registry.snapshot();
    assert_eq!(snapshot.entry(0).client_id(), "a");
    assert_eq!(snapshot.entry(1).client_id(), "b");
    assert_eq!(snapshot.entry(1).display_name(), "bob");
}

#[test]
fn register_duplicate_id_is_rejected() {
    let mut registry = ClientRegistry::new();
    assert_eq!(registry.register("a".to_string(), "alice".to_string(), sender()), Ok(()));
    assert_eq!(
        registry.register("a".to_string(), "impostor".to_string(), sender()),
        Err(RegistryError::DuplicateClient)
    );
    assert_eq!(registry.len(), 1);
    assert_eq!(registry.display_name_of("a"), Some("alice".to_string()));
}

#[test]
fn rejected_registration_keeps_the_first_channel() {
    let mut registry = ClientRegistry::new();
    let (first, mut first_rx) = channel::<ChatMessage>(4);
    let (second, mut second_rx) = channel::<ChatMessage>(4);
    assert_eq!(registry.register("a".to_string(), "alice".to_string(), first), Ok(()));
    assert_eq!(
        registry.register("a".to_string(), "alice".to_string(), second),
        Err(RegistryError::DuplicateClient)
    );
    let message = ChatMessage::new("alice".to_string(), "hi".to_string());
    let snapshot = registry.snapshot();
    assert!(snapshot.entry(0).channel().try_send(message.clone()).is_ok());
    assert_eq!(first_rx.try_recv().ok(), Some(message));
    assert!(second_rx.try_recv().is_err());
}

#[test]
fn same_display_name_under_two_ids_is_allowed() {
    let mut registry = ClientRegistry::new();
    assert_eq!(registry.register("a".to_string(), "sam".to_string(), sender()), Ok(()));
    assert_eq!(registry.register("b".to_string(), "sam".to_string(), sender()), Ok(()));
    assert_eq!(names(&registry), vec!["sam".to_string(), "sam".to_string()]);
}

#[test]
fn update_display_name_changes_only_that_client() {
    let mut registry = ClientRegistry::new();
    registry.register("a".to_string(), "alice".to_string(), sender()).unwrap();
    registry.register("b".to_string(), "bob".to_string(), sender()).unwrap();
    registry.register("c".to_string(), "carol".to_string(), sender()).unwrap();
    assert!(registry.update_display_name("b", "robert".to_string()));
    assert_eq!(
        names(&registry),
        vec!["alice".to_string(), "robert".to_string(), "carol".to_string()]
    );
    assert_eq!(registry.display_name_of("b"), Some("robert".to_string()));
    assert_eq!(registry.len(), 3);
}

#[test]
fn update_display_name_of_absent_client_is_a_noop() {
    let mut registry = ClientRegistry::new();
    registry.register("a".to_string(), "alice".to_string(), sender()).unwrap();
    assert!(!registry.update_display_name("zz", "nobody".to_string()));
    assert_eq!(names(&registry), vec!["alice".to_string()]);
    assert!(!registry.contains("zz"));
}

#[test]
fn remove_says_whether_the_client_was_there() {
    let mut registry = ClientRegistry::new();
    registry.register("a".to_string(), "alice".to_string(), sender()).unwrap();
    registry.register("b".to_string(), "bob".to_string(), sender()).unwrap();
    assert!(registry.remove("a"));
    assert!(!registry.contains("a"));
    assert_eq!(names(&registry), vec!["bob".to_string()]);
    assert!(!registry.remove("a"));
    assert_eq!(names(&registry), vec!["bob".to_string()]);
    assert!(!registry.remove("never-there"));
    assert_eq!(registry.len(), 1);
}

#[test]
fn remove_keeps_the_order_of_the_others() {
    let mut registry = ClientRegistry::new();
    for id in ["a", "b", "c", "d"] {
        registry.register(id.to_string(), format!("name-{id}"), sender()).unwrap();
    }
    assert!(registry.remove("b"));
    assert_eq!(
        names(&registry),
        vec!["name-a".to_string(), "name-c".to_string(), "name-d".to_string()]
    );
    assert!(registry.remove("d"));
    assert!(registry.remove("a"));
    assert_eq!(names(&registry), vec!["name-c".to_string()]);
}

#[test]
fn registered_then_removed_client_is_in_no_snapshot() {
    let mut registry = ClientRegistry::new();
    registry.register("keep".to_string(), "kept".to_string(), sender()).unwrap();
    registry.register("x".to_string(), "gone".to_string(), sender()).unwrap();
    assert!(registry.remove("x"));
    let snapshot = registry.snapshot();
    assert_eq!(snapshot.len(), 1);
    assert_eq!(snapshot.entry(0).client_id(), "keep");
    assert_eq!(snapshot.display_names(), vec!["kept".to_string()]);
    assert_eq!(registry.display_name_of("x"), None);
}

#[test]
fn removed_id_can_register_again() {
    let mut registry = ClientRegistry::new();
    registry.register("a".to_string(), "first".to_string(), sender()).unwrap();
    assert!(registry.remove("a"));
    assert_eq!(registry.register("a".to_string(), "second".to_string(), sender()), Ok(()));
    assert_eq!(names(&registry), vec!["second".to_string()]);
}

#[test]
fn snapshot_does_not_follow_later_changes() {
    let mut registry = ClientRegistry::new();
    registry.register("a".to_string(), "alice".to_string(), sender()).unwrap();
    registry.register("b".to_string(), "bob".to_string(), sender()).unwrap();
    let snapshot = registry.snapshot();
    registry.update_display_name("a", "alicia".to_string());
    registry.remove("b");
    registry.register("c".to_string(), "carol".to_string(), sender()).unwrap();
    assert_eq!(snapshot.len(), 2);
    assert_eq!(snapshot.display_names(), vec!["alice".to_string(), "bob".to_string()]);
    assert_eq!(names(&registry), vec!["alicia".to_string(), "carol".to_string()]);
}

#[test]
fn snapshot_channels_reach_the_registered_receivers() {
    let mut registry = ClientRegistry::new();
    let (tx_a, mut rx_a) = channel::<ChatMessage>(4);
    let (tx_b, mut rx_b) = channel::<ChatMessage>(4);
    registry.register("a".to_string(), "alice".to_string(), tx_a).unwrap();
    registry.register("b".to_string(), "bob".to_string(), tx_b).unwrap();
    let snapshot = registry.snapshot();
    let to_a = ChatMessage::new("x".to_string(), "for a".to_string());
    let to_b = ChatMessage::new("x".to_string(), "for b".to_string());
    assert!(snapshot.entry(0).channel().try_send(to_a.clone()).is_ok());
    assert!(snapshot.entry(1).channel().try_send(to_b.clone()).is_ok());
    assert_eq!(rx_a.try_recv().ok(), Some(to_a));
    assert_eq!(rx_b.try_recv().ok(), Some(to_b));
    assert!(rx_a.try_recv().is_err());
    assert!(rx_b.try_recv().is_err());
}

#[test]
fn ids_are_compared_character_by_character() {
    let mut registry = ClientRegistry::new();
    registry.register("id-1".to_string(), "one".to_string(), sender()).unwrap();
    assert_eq!(registry.register("id-10".to_string(), "ten".to_string(), sender()), Ok(()));
    assert_eq!(registry.register("ID-1".to_string(), "upper".to_string(), sender()), Ok(()));
    assert_eq!(registry.register("".to_string(), "empty".to_string(), sender()), Ok(()));
    assert_eq!(
        registry.register("".to_string(), "again".to_string(), sender()),
        Err(RegistryError::DuplicateClient)
    );
    assert!(!registry.contains("id-"));
    assert_eq!(registry.display_name_of("id-10"), Some("ten".to_string()));
    assert_eq!(registry.len(), 4);
}
