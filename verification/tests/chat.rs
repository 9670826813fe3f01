use telegrand::session::chat::{
    Chat, ChatList, ChatPosition, ChatProperty, ChatType, ChatUpdate, DraftMessage,
    InputMessageContent, Session,
};

fn sample_chat() -> Chat {
    Chat::new(
        42,
        ChatType::Supergroup { supergroup_id: 7, is_channel: true },
        "Rustaceans".to_string(),
        Session::new(1),
    )
}

#[test]
fn new_chat_has_defaults() {
    let chat = sample_chat();
    assert_eq!(chat.id(), 42);
    assert_eq!(chat.chat_type(), ChatType::Supergroup { supergroup_id: 7, is_channel: true });
    assert_eq!(chat.title(), "Rustaceans");
    assert_eq!(chat.last_message(), "");
    assert_eq!(chat.order(), 0);
    assert_eq!(chat.unread_count(), 0);
    assert_eq!(chat.draft_message(), "");
    assert_eq!(chat.session().client_id(), 1);
}

#[test]
fn title_update_notifies_only_on_change() {
    let mut chat = sample_chat();
    let outcome = chat.handle_update(ChatUpdate::ChatTitle { title: "Crabs".to_string() });
    assert_eq!(outcome.notified, vec![ChatProperty::Title]);
    assert!(!outcome.forward_to_history);
    assert_eq!(chat.title(), "Crabs");
    let again = chat.handle_update(ChatUpdate::ChatTitle { title: "Crabs".to_string() });
    assert!(again.notified.is_empty());
    assert_eq!(chat.title(), "Crabs");
}

#[test]
fn message_updates_go_to_history() {
    let mut chat = sample_chat();
    let outcome = chat.handle_update(ChatUpdate::NewMessage);
    assert!(outcome.forward_to_history);
    assert!(outcome.notified.is_empty());
    let outcome = chat.handle_update(ChatUpdate::MessageContent);
    assert!(outcome.forward_to_history);
    let outcome = chat.handle_update(ChatUpdate::Other);
    assert!(!outcome.forward_to_history);
    assert!(outcome.notified.is_empty());
}

#[test]
fn last_message_takes_first_main_position() {
    let mut chat = sample_chat();
    let outcome = chat.handle_update(ChatUpdate::ChatLastMessage {
        last_message: Some("hello".to_string()),
        positions: vec![
            ChatPosition { list: ChatList::Archive, order: 5 },
            ChatPosition { list: ChatList::Main, order: 9 },
            ChatPosition { list: ChatList::Main, order: 11 },
        ],
    });
    assert_eq!(outcome.notified, vec![ChatProperty::LastMessage, ChatProperty::Order]);
    assert_eq!(chat.last_message(), "hello");
    assert_eq!(chat.order(), 9);
}

#[test]
fn last_message_none_clears_text_and_keeps_order_without_main_position() {
    let mut chat = sample_chat();
    chat.handle_update(ChatUpdate::ChatLastMessage {
        last_message: Some("hello".to_string()),
        positions: vec![ChatPosition { list: ChatList::Main, order: 3 }],
    });
    let outcome = chat.handle_update(ChatUpdate::ChatLastMessage {
        last_message: None,
        positions: vec![ChatPosition { list: ChatList::Filter { chat_filter_id: 2 }, order: 8 }],
    });
    assert_eq!(outcome.notified, vec![ChatProperty::LastMessage]);
    assert_eq!(chat.last_message(), "");
    assert_eq!(chat.order(), 3);
}

#[test]
fn position_update_only_for_main_list() {
    let mut chat = sample_chat();
    let outcome = chat.handle_update(ChatUpdate::ChatPosition {
        position: ChatPosition { list: ChatList::Archive, order: 100 },
    });
    assert!(outcome.notified.is_empty());
    assert_eq!(chat.order(), 0);
    let outcome = chat.handle_update(ChatUpdate::ChatPosition {
        position: ChatPosition { list: ChatList::Main, order: 100 },
    });
    assert_eq!(outcome.notified, vec![ChatProperty::Order]);
    assert_eq!(chat.order(), 100);
}

#[test]
fn read_inbox_sets_unread_count() {
    let mut chat = sample_chat();
    let outcome = chat.handle_update(ChatUpdate::ChatReadInbox { unread_count: 4 });
    assert_eq!(outcome.notified, vec![ChatProperty::UnreadCount]);
    assert_eq!(chat.unread_count(), 4);
    let outcome = chat.handle_update(ChatUpdate::ChatReadInbox { unread_count: 4 });
    assert!(outcome.notified.is_empty());
}

#[test]
fn draft_update_keeps_only_text_drafts() {
    let mut chat = sample_chat();
    let outcome = chat.handle_update(ChatUpdate::ChatDraftMessage {
        draft_message: Some(DraftMessage {
            input_message_text: InputMessageContent::Text { text: "half a thought".to_string() },
        }),
    });
    assert_eq!(outcome.notified, vec![ChatProperty::DraftMessage]);
    assert_eq!(chat.draft_message(), "half a thought");
    let outcome = chat.handle_update(ChatUpdate::ChatDraftMessage {
        draft_message: Some(DraftMessage { input_message_text: InputMessageContent::Other }),
    });
    assert_eq!(outcome.notified, vec![ChatProperty::DraftMessage]);
    assert_eq!(chat.draft_message(), "");
    let outcome = chat.handle_update(ChatUpdate::ChatDraftMessage { draft_message: None });
    assert!(outcome.notified.is_empty());
}

#[test]
fn repeated_update_changes_nothing() {
    let mut chat = sample_chat();
    let make = || ChatUpdate::ChatLastMessage {
        last_message: Some("x".to_string()),
        positions: vec![ChatPosition { list: ChatList::Main, order: 12 }],
    };
    let first = chat.handle_update(make());
    assert_eq!(first.notified.len(), 2);
    let second = chat.handle_update(make());
    assert!(second.notified.is_empty());
    assert_eq!(chat.last_message(), "x");
    assert_eq!(chat.order(), 12);
    assert_eq!(chat.id(), 42);
}

#[test]
fn property_names() {
    assert_eq!(ChatProperty::Title.name(), "title");
    assert_eq!(ChatProperty::LastMessage.name(), "last-message");
    assert_eq!(ChatProperty::Order.name(), "order");
    assert_eq!(ChatProperty::UnreadCount.name(), "unread-count");
    assert_eq!(ChatProperty::DraftMessage.name(), "draft-message");
}
