use telegrand::session::chat::{Chat, ChatType, ChatUpdate, DraftMessage, InputMessageContent, Session};
use telegrand::session::content::chat_history::ChatHistory;

fn chat_with_draft(id: i64, draft: &str) -> Chat {
    let mut chat = Chat::new(id, ChatType::Private { user_id: id }, format!("chat {}", id), Session::new(5));
    chat.handle_update(ChatUpdate::ChatDraftMessage {
        draft_message: Some(DraftMessage {
            input_message_text: InputMessageContent::Text { text: draft.to_string() },
        }),
    });
    chat
}

#[test]
fn new_history_is_empty() {
    let history = ChatHistory::new();
    assert!(history.chat().is_none());
    assert!(!history.compact());
    assert_eq!(history.message_entry_text(), "");
}

#[test]
fn showing_a_chat_loads_its_draft() {
    let mut history = ChatHistory::new();
    let outcome = history.set_chat(Some(chat_with_draft(1, "draft one")));
    assert!(outcome.draft_request.is_none());
    assert!(outcome.history_shown);
    assert!(outcome.notified);
    assert_eq!(history.chat().map(|c| c.id()), Some(1));
    assert_eq!(history.message_entry_text(), "draft one");
    assert!(history.save_draft_message().is_none());
}

#[test]
fn showing_the_same_chat_again_does_nothing() {
    let mut history = ChatHistory::new();
    history.set_chat(Some(chat_with_draft(1, "a")));
    history.set_message_entry_text("typed".to_string());
    let outcome = history.set_chat(Some(chat_with_draft(1, "other")));
    assert!(outcome.draft_request.is_none());
    assert!(!outcome.history_shown);
    assert!(!outcome.notified);
    assert_eq!(history.message_entry_text(), "typed");
    assert_eq!(history.chat().unwrap().draft_message(), "a");
    let outcome = ChatHistory::new().set_chat(None);
    assert!(outcome.draft_request.is_none());
    assert!(!outcome.notified);
}

#[test]
fn switching_chats_saves_the_changed_draft() {
    let mut history = ChatHistory::new();
    history.set_chat(Some(chat_with_draft(1, "a")));
    history.set_message_entry_text("edited".to_string());
    let outcome = history.set_chat(Some(chat_with_draft(2, "b")));
    let request = outcome.draft_request.expect("draft request");
    assert_eq!(request.client_id, 5);
    assert_eq!(request.chat_id, 1);
    assert_eq!(request.text, "edited");
    assert!(outcome.history_shown);
    assert!(outcome.notified);
    assert_eq!(history.message_entry_text(), "b");
}

#[test]
fn leaving_for_no_chat_keeps_entry() {
    let mut history = ChatHistory::new();
    history.set_chat(Some(chat_with_draft(1, "a")));
    let outcome = history.set_chat(None);
    assert!(outcome.draft_request.is_none());
    assert!(!outcome.history_shown);
    assert!(outcome.notified);
    assert!(history.chat().is_none());
    assert_eq!(history.message_entry_text(), "a");
}

#[test]
fn sending_clears_the_entry() {
    let mut history = ChatHistory::new();
    history.set_chat(Some(chat_with_draft(3, "")));
    history.set_message_entry_text("hello there".to_string());
    let request = history.send_message().expect("send request");
    assert_eq!(request.client_id, 5);
    assert_eq!(request.chat_id, 3);
    assert_eq!(request.text, "hello there");
    assert!(request.clear_draft);
    assert_eq!(history.message_entry_text(), "");
}

#[test]
fn sending_without_chat_does_nothing() {
    let mut history = ChatHistory::new();
    history.set_message_entry_text("lost".to_string());
    assert!(history.send_message().is_none());
    assert_eq!(history.message_entry_text(), "lost");
    assert!(history.save_draft_message().is_none());
}

#[test]
fn refreshing_the_shown_chat_uses_its_current_draft() {
    let mut history = ChatHistory::new();
    history.refresh_chat(chat_with_draft(9, "ignored"));
    assert!(history.chat().is_none());
    history.set_chat(Some(chat_with_draft(4, "x")));
    history.set_message_entry_text("y".to_string());
    history.refresh_chat(chat_with_draft(5, "other chat"));
    assert_eq!(history.chat().unwrap().id(), 4);
    assert_eq!(history.chat().unwrap().draft_message(), "x");
    history.refresh_chat(chat_with_draft(4, "y"));
    assert_eq!(history.chat().unwrap().draft_message(), "y");
    assert_eq!(history.message_entry_text(), "y");
    assert!(history.save_draft_message().is_none());
}

#[test]
fn compact_property() {
    let mut history = ChatHistory::new();
    history.set_compact(true);
    assert!(history.compact());
}

#[test]
fn chat_shown_is_the_last_one_set() {
    let mut history = ChatHistory::new();
    history.set_chat(Some(chat_with_draft(1, "")));
    history.set_compact(true);
    history.set_message_entry_text("hi".to_string());
    history.send_message();
    history.refresh_chat(chat_with_draft(1, "d"));
    assert_eq!(history.chat().map(|c| c.id()), Some(1));
    history.set_chat(Some(chat_with_draft(2, "")));
    assert_eq!(history.chat().map(|c| c.id()), Some(2));
    history.set_chat(None);
    assert!(history.chat().is_none());
}
