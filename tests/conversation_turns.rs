use breve::conversation::Conversation;

#[test]
fn new_conversation_is_empty() {
    let conv = Conversation::new("id-1".to_string(), "Title".to_string());
    assert_eq!(conv.id, "id-1");
    assert_eq!(conv.title, "Title");
    assert!(conv.is_empty());
    assert!(conv.get_last_message().is_none());
}

#[test]
fn messages_are_appended_in_order() {
    let mut conv = Conversation::new("id-2".to_string(), "Chat".to_string());
    conv.add_message("user", "first");
    conv.add_message("assistant", "second");
    assert!(!conv.is_empty());
    assert_eq!(conv.body.len(), 2);
    let last = conv.get_last_message().unwrap();
    assert_eq!(last.role, "assistant");
    assert_eq!(last.content, "second");
}

#[test]
fn messages_by_role_keep_order() {
    let mut conv = Conversation::new("id-3".to_string(), "Chat".to_string());
    conv.add_message("user", "a");
    conv.add_message("assistant", "b");
    conv.add_message("user", "c");
    let users: Vec<&str> = conv.get_messages_by_role("user").iter().map(|m| m.content.as_str()).collect();
    assert_eq!(users, vec!["a", "c"]);
    assert_eq!(conv.get_messages_by_role("assistant").len(), 1);
    assert!(conv.get_messages_by_role("system").is_empty());
}

#[test]
fn title_update_and_clear() {
    let mut conv = Conversation::new("id-4".to_string(), "Old".to_string());
    conv.add_message("user", "hello");
    conv.update_title("New");
    assert_eq!(conv.title, "New");
    assert_eq!(conv.body.len(), 1);
    conv.clear_messages();
    assert!(conv.is_empty());
    assert_eq!(conv.title, "New");
    assert_eq!(conv.id, "id-4");
}

#[test]
fn started_conversation_has_fresh_identifier() {
    let a = Conversation::start("First");
    let b = Conversation::start("Second");
    assert_eq!(a.id.len(), 36);
    assert_eq!(a.id.matches('-').count(), 4);
    for (i, c) in a.id.chars().enumerate() {
        if i == 8 || i == 13 || i == 18 || i == 23 {
            assert_eq!(c, '-');
        } else {
            assert!(c.is_ascii_digit() || ('a'..='f').contains(&c));
        }
    }
    assert_eq!(a.id.chars().nth(14), Some('4'));
    assert!(matches!(a.id.chars().nth(19), Some('8' | '9' | 'a' | 'b')));
    assert_ne!(a.id, b.id);
    assert_eq!(a.title, "First");
    assert!(a.is_empty());
}
