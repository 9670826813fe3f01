//! A row of the chat history: how a message is laid out as a bubble and
//! what text it shows.

use vstd::prelude::*;
use vstd::string::*;
use crate::text::{trim, trimmed, is_white_space, lemma_trimmed_is_core, lemma_trimmed_of_clean};

verus! {

/// What a message holds, as far as a row shows it.
#[derive(Clone, Debug)]
pub enum MessageContent {
    /// A text message; the text is Pango markup.
    Text(String),
    /// Any content that is not shown.
    Unsupported,
}

/// Who sent a message.
#[derive(Clone, Copy, Debug, PartialEq, Eq, Structural)]
pub enum MessageSender {
    User { user_id: i64 },
    Chat { chat_id: i64 },
}

/// A message of a chat.
#[derive(Clone, Debug)]
pub struct Message {
    pub id: i64,
    pub chat_id: i64,
    pub sender: MessageSender,
    pub outgoing: bool,
    pub content: MessageContent,
}

/// Horizontal placement of a bubble in its row.
#[derive(Clone, Copy, Debug, PartialEq, Eq, Structural)]
pub enum Align {
    Start,
    End,
}

/// The label above an incoming message that names its sender.
#[derive(Clone, Copy, Debug, PartialEq, Eq, Structural)]
pub enum SenderLabel {
    /// The title of the chat with this id, kept up to date.
    ChatTitle { chat_id: i64 },
    /// The full name of the user with this id, kept up to date; the row also
    /// shows an avatar with the user's initials, labelled with the same name.
    UserName { user_id: i64 },
}

/// The layout of a message bubble.
#[derive(Clone, Copy, Debug, PartialEq, Eq, Structural)]
pub struct MessageBubble {
    /// Where the bubble sits: at the end for outgoing messages.
    pub halign: Align,
    /// Whether the bubble is styled as outgoing rather than incoming.
    pub outgoing: bool,
    /// The sender label, shown for incoming messages only.
    pub sender: Option<SenderLabel>,
}

/// The bubble that lays out a message with the given sender and direction.
pub open spec fn bubble_for(sender: MessageSender, outgoing: bool) -> MessageBubble {
    if outgoing {
        MessageBubble { halign: Align::End, outgoing: true, sender: None }
    } else {
        MessageBubble {
            halign: Align::Start,
            outgoing: false,
            sender: Some(
                match sender {
                    MessageSender::Chat { chat_id } => SenderLabel::ChatTitle { chat_id },
                    MessageSender::User { user_id } => SenderLabel::UserName { user_id },
                },
            ),
        }
    }
}

/// `text` in italics, as Pango markup.
pub open spec fn italic_markup(text: Seq<char>) -> Seq<char> {
    seq!['<', 'i', '>'] + text + seq!['<', '/', 'i', '>']
}

/// The full name of a user: first and last name joined by a space, without
/// surrounding whitespace.
pub open spec fn spec_full_name(first_name: Seq<char>, last_name: Seq<char>) -> Seq<char> {
    trimmed(first_name + seq![' '] + last_name)
}

/// `text` in italics, as Pango markup.
fn italic(text: &str) -> (markup: String)
    ensures
        markup@ == italic_markup(text@),
{
    let mut markup = String::from_str("<i>");
    markup.append(text);
    markup.append("</i>");
    proof {
        reveal_strlit("<i>");
        reveal_strlit("</i>");
        assert(markup@ =~= italic_markup(text@));
    }
    markup
}

/// The markup that a row shows for `content`: the text itself, or, when the
/// content is unsupported, `unsupported_note` (the translation of "This
/// message is unsupported", which the caller looks up) in italics.
pub fn get_text_from_message_content(content: MessageContent, unsupported_note: &str) -> (markup:
    String)
    ensures
        match content {
            MessageContent::Text(text) => markup@ == text@,
            MessageContent::Unsupported => markup@ == italic_markup(unsupported_note@),
        },
{
    match content {
        MessageContent::Text(text) => text,
        MessageContent::Unsupported => italic(unsupported_note),
    }
}

/// The full name shown for a user: `first_name`, a space and `last_name`,
/// with leading and trailing whitespace removed.
pub fn full_name(first_name: &str, last_name: &str) -> (name: String)
    ensures
        name@ == spec_full_name(first_name@, last_name@),
{
    let mut joined = String::from_str(first_name);
    joined.append(" ");
    joined.append(last_name);
    proof {
        reveal_strlit(" ");
        assert(joined@ =~= first_name@ + seq![' '] + last_name@);
    }
    trim(joined.as_str())
}

/// The CSS class that styles a bubble by its direction.
pub fn direction_class(outgoing: bool) -> (class: &'static str)
    ensures
        class@ == (if outgoing {
            "outgoing"@
        } else {
            "incoming"@
        }),
{
    if outgoing {
        "outgoing"
    } else {
        "incoming"
    }
}

/// Whether two optional messages are the same message: both absent, or
/// both present with the same chat and id.
pub open spec fn same_message(a: Option<Message>, b: Option<Message>) -> bool {
    match (a, b) {
        (None, None) => true,
        (Some(x), Some(y)) => x.chat_id == y.chat_id && x.id == y.id,
        _ => false,
    }
}

/// What setting the message of a row did.
pub struct SetMessageOutcome {
    /// The bubble that now shows the new message, when one was built.
    pub bubble: Option<MessageBubble>,
    /// Whether the change of the row's message was announced.
    pub notified: bool,
}

/// Where a bubble sits depends on its direction alone: outgoing messages at
/// the end without a sender label, incoming ones at the start, whoever sent
/// them, under a label that names their sender.
pub proof fn lemma_bubble_layout(sender: MessageSender, outgoing: bool)
    ensures
        bubble_for(sender, outgoing).halign == (if outgoing {
            Align::End
        } else {
            Align::Start
        }),
        bubble_for(sender, outgoing).outgoing == outgoing,
        outgoing ==> bubble_for(sender, outgoing).sender is None,
        !outgoing ==> match sender {
            MessageSender::Chat { chat_id } => bubble_for(sender, outgoing).sender == Some(
                SenderLabel::ChatTitle { chat_id },
            ),
            MessageSender::User { user_id } => bubble_for(sender, outgoing).sender == Some(
                SenderLabel::UserName { user_id },
            ),
        },
{
}

/// A full name keeps the characters that are not whitespace at its ends:
/// for names that neither start nor end with whitespace, it is the first
/// name, a space and the last name; a last name ending in any character
/// that is not whitespace (such as '.') keeps that character.
pub proof fn lemma_full_name(first_name: Seq<char>, last_name: Seq<char>)
    ensures
        first_name.len() > 0 && !is_white_space(first_name[0]) && last_name.len() > 0
            && !is_white_space(last_name.last()) ==> spec_full_name(first_name, last_name)
            == first_name + seq![' '] + last_name,
        last_name.len() > 0 && !is_white_space(last_name.last()) ==> spec_full_name(
            first_name,
            last_name,
        ).last() == last_name.last(),
{
    let s = first_name + seq![' '] + last_name;
    if last_name.len() > 0 {
        assert(s.last() == last_name.last());
        lemma_trimmed_is_core(s);
        if first_name.len() > 0 {
            assert(s[0] == first_name[0]);
            if !is_white_space(first_name[0]) && !is_white_space(last_name.last()) {
                lemma_trimmed_of_clean(s);
            }
        }
    }
}

/// The note for unsupported content is the note between `<i>` and `</i>`,
/// and nothing else; and two messages are the same message exactly when
/// both their chats and their ids agree.
pub proof fn lemma_markup_and_identity(note: Seq<char>, a: Option<Message>, b: Option<Message>)
    ensures
        italic_markup(note).len() == note.len() + 7,
        italic_markup(note).take(3) == seq!['<', 'i', '>'],
        italic_markup(note).subrange(3, 3 + note.len() as int) == note,
        italic_markup(note).skip(3 + note.len() as int) == seq!['<', '/', 'i', '>'],
        same_message(a, b) <==> match (a, b) {
            (Some(x), Some(y)) => x.chat_id == y.chat_id && x.id == y.id,
            (None, None) => true,
            _ => false,
        },
{
    let m = italic_markup(note);
    assert(m.take(3) =~= seq!['<', 'i', '>']);
    assert(m.subrange(3, 3 + note.len() as int) =~= note);
    assert(m.skip(3 + note.len() as int) =~= seq!['<', '/', 'i', '>']);
}

/// A row that shows one message.
pub struct MessageRow {
    message: Option<Message>,
}

impl View for MessageRow {
    type V = Option<Message>;

    closed spec fn view(&self) -> Option<Message> {
        self.message
    }
}

impl MessageRow {
    /// A row that shows no message.
    pub fn new() -> (row: MessageRow)
        ensures
            row@ is None,
    {
        MessageRow { message: None }
    }

    /// The message shown.
    pub fn message(&self) -> (message: Option<&Message>)
        ensures
            match message {
                Some(m) => self@ == Some(*m),
                None => self@ is None,
            },
    {
        match &self.message {
            Some(m) => Some(m),
            None => None,
        }
    }

    /// Shows `message`. Nothing happens when it is the message already shown
    /// (the same chat and id, or no message when none is shown); otherwise
    /// a bubble is built for it, if there is one, it replaces the shown
    /// message, and the change is announced.
    pub fn set_message(&mut self, message: Option<Message>) -> (outcome: SetMessageOutcome)
        ensures
            same_message(old(self)@, message) ==> {
                &&& final(self)@ == old(self)@
                &&& outcome.bubble is None
                &&& !outcome.notified
            },
            !same_message(old(self)@, message) ==> {
                &&& final(self)@ == message
                &&& outcome.bubble == match message {
                    Some(m) => Some(bubble_for(m.sender, m.outgoing)),
                    None => None,
                }
                &&& outcome.notified
            },
    {
        let same = match (&self.message, &message) {
            (None, None) => true,
            (Some(x), Some(y)) => x.chat_id == y.chat_id && x.id == y.id,
            _ => false,
        };
        if same {
            return SetMessageOutcome { bubble: None, notified: false };
        }
        let bubble = match &message {
            Some(m) => Some(MessageRow::create_message_bubble(m)),
            None => None,
        };
        self.message = message;
        SetMessageOutcome { bubble, notified: true }
    }

    /// The bubble for `message`: outgoing messages sit at the end with no
    /// sender label; incoming ones sit at the start under a label that names
    /// the sending chat or user.
    pub fn create_message_bubble(message: &Message) -> (bubble: MessageBubble)
        ensures
            bubble == bubble_for(message.sender, message.outgoing),
    {
        if message.outgoing {
            MessageBubble { halign: Align::End, outgoing: true, sender: None }
        } else {
            let label = match message.sender {
                MessageSender::Chat { chat_id } => SenderLabel::ChatTitle { chat_id },
                MessageSender::User { user_id } => SenderLabel::UserName { user_id },
            };
            MessageBubble { halign: Align::Start, outgoing: false, sender: Some(label) }
        }
    }
}

} // verus!
