use telegrand::session::content::message_row::{
    direction_class, full_name, get_text_from_message_content, Align,
    Message, MessageBubble, MessageContent, MessageRow, MessageSender, SenderLabel,
};

fn message(id: i64, sender: MessageSender, outgoing: bool) -> Message {
    Message { id, chat_id: 10, sender, outgoing, content: MessageContent::Text("hi".to_string()) }
}

#[test]
fn text_content_is_shown_as_is() {
    let text = get_text_from_message_content(MessageContent::Text("<b>bold</b>".to_string()), "note");
    assert_eq!(text, "<b>bold</b>");
}

#[test]
fn unsupported_content_is_the_note_in_italics() {
    let text = get_text_from_message_content(MessageContent::Unsupported, "This message is unsupported");
    assert_eq!(text, "<i>This message is unsupported</i>");
    let text = get_text_from_message_content(MessageContent::Unsupported, "Nicht unterstützt");
    assert_eq!(text, "<i>Nicht unterstützt</i>");
    assert_eq!(get_text_from_message_content(MessageContent::Unsupported, ""), "<i></i>");
}

#[test]
fn full_name_joins_and_trims() {
    assert_eq!(full_name("Ada", "Lovelace"), "Ada Lovelace");
    assert_eq!(full_name("Ada", ""), "Ada");
    assert_eq!(full_name("", "Lovelace"), "Lovelace");
    assert_eq!(full_name("  Ada", "Lovelace\t"), "Ada Lovelace");
    assert_eq!(full_name("", ""), "");
    assert_eq!(full_name("\u{3000}Zoë", "Ö\u{2003}"), "Zoë Ö");
}

#[test]
fn outgoing_bubble_sits_at_the_end() {
    let m = message(1, MessageSender::User { user_id: 3 }, true);
    let bubble = MessageRow::create_message_bubble(&m);
    assert_eq!(bubble, MessageBubble { halign: Align::End, outgoing: true, sender: None });
    assert_eq!(direction_class(bubble.outgoing), "outgoing");
}

#[test]
fn incoming_bubble_names_the_sender() {
    let m = message(1, MessageSender::User { user_id: 3 }, false);
    let bubble = MessageRow::create_message_bubble(&m);
    assert_eq!(bubble.halign, Align::Start);
    assert_eq!(bubble.sender, Some(SenderLabel::UserName { user_id: 3 }));
    assert_eq!(direction_class(bubble.outgoing), "incoming");
    let m = message(2, MessageSender::Chat { chat_id: 77 }, false);
    let bubble = MessageRow::create_message_bubble(&m);
    assert_eq!(bubble.sender, Some(SenderLabel::ChatTitle { chat_id: 77 }));
}

#[test]
fn setting_a_message_builds_a_bubble_once() {
    let mut row = MessageRow::new();
    assert!(row.message().is_none());
    let outcome = row.set_message(Some(message(1, MessageSender::Chat { chat_id: 5 }, true)));
    assert!(outcome.notified);
    assert_eq!(outcome.bubble.map(|b| b.halign), Some(Align::End));
    assert_eq!(row.message().map(|m| m.id), Some(1));
    let outcome = row.set_message(Some(message(1, MessageSender::Chat { chat_id: 5 }, false)));
    assert!(!outcome.notified);
    assert!(outcome.bubble.is_none());
    assert_eq!(row.message().map(|m| m.outgoing), Some(true));
    let outcome = row.set_message(Some(message(2, MessageSender::Chat { chat_id: 5 }, false)));
    assert!(outcome.notified);
    assert_eq!(outcome.bubble.and_then(|b| b.sender), Some(SenderLabel::ChatTitle { chat_id: 5 }));
    let outcome = row.set_message(None);
    assert!(outcome.notified);
    assert!(outcome.bubble.is_none());
    assert!(row.message().is_none());
    let outcome = row.set_message(None);
    assert!(!outcome.notified);
}
