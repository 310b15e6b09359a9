use chat_relay::message::ChatMessage;

#[test]
fn message_keeps_what_it_was_built_from() {
    let built = ChatMessage::new("alice".to_string(), "hello, world".to_string());
    assert_eq!(built.username(), "alice");
    assert_eq!(built.message(), "hello, world");
}

#[test]
fn message_clone_is_equal() {
    let built = ChatMessage::new("alice".to_string(), "hello".to_string());
    let copy = built.clone();
    assert_eq!(copy, built);
    assert_eq!(copy.username(), "alice");
    assert_eq!(copy.message(), "hello");
    assert_ne!(copy, ChatMessage::new("alice".to_string(), "hello!".to_string()));
    assert_ne!(copy, ChatMessage::new("alicE".to_string(), "hello".to_string()));
}

#[test]
fn join_notice_carries_the_username() {
    let notice = ChatMessage::join_notice("bob".to_string());
    assert_eq!(notice.username(), "bob");
    assert_eq!(notice.message(), "has joined the chat");
    assert_eq!(
        notice,
        ChatMessage::new("bob".to_string(), "has joined the chat".to_string())
    );
}

#[test]
fn own_message_is_told_by_the_username_alone() {
    let built = ChatMessage::new("alice".to_string(), "hello".to_string());
    assert!(built.is_from("alice"));
    assert!(!built.is_from("Alice"));
    assert!(!built.is_from("alice "));
    assert!(!built.is_from(""));
    assert!(!built.is_from("hello"));
    let anonymous = ChatMessage::new("".to_string(), "x".to_string());
    assert!(anonymous.is_from(""));
}
