//! The chat history view: the chat it shows, the message entry under it,
//! and the requests it makes to send a message or save a draft.

use vstd::prelude::*;
use crate::session::chat::{Chat, ChatModel};

verus! {

/// A request to send a text message to a chat.
pub struct SendMessage {
    pub client_id: i32,
    pub chat_id: i64,
    pub text: String,
    /// Whether the chat's draft is cleared once the message is sent.
    pub clear_draft: bool,
}

/// A request to store the text of the message entry as a chat's draft.
pub struct SetChatDraftMessage {
    pub client_id: i32,
    pub chat_id: i64,
    pub text: String,
}

/// What switching the shown chat did.
pub struct SetChatOutcome {
    /// The request that saves the draft of the chat shown before, if its
    /// draft differed from the message entry.
    pub draft_request: Option<SetChatDraftMessage>,
    /// Whether the history of the new chat was fetched and is now listed.
    pub history_shown: bool,
    /// Whether the change of the shown chat was announced.
    pub notified: bool,
}

/// The abstract state of a chat history view.
#[verifier::ext_equal]
pub struct ChatHistoryModel {
    pub compact: bool,
    pub chat: Option<ChatModel>,
    pub message_entry: Seq<char>,
}

/// The view of an optional chat.
pub open spec fn chat_view(chat: Option<Chat>) -> Option<ChatModel> {
    match chat {
        Some(c) => Some(c@),
        None => None,
    }
}

/// Whether leaving the chat shown in `h` saves a draft: a chat is shown and
/// its draft differs from the message entry.
pub open spec fn needs_draft_save(h: ChatHistoryModel) -> bool {
    match h.chat {
        Some(c) => c.draft_message != h.message_entry,
        None => false,
    }
}

/// The TDLib id of an optional chat.
pub open spec fn chat_id_of(chat: Option<ChatModel>) -> Option<i64> {
    match chat {
        Some(c) => Some(c.id),
        None => None,
    }
}

/// Whether two optional chats are the same chat: both absent, or both
/// present with the same TDLib id, by which a session knows its chats.
pub open spec fn same_chat(a: Option<ChatModel>, b: Option<ChatModel>) -> bool {
    chat_id_of(a) == chat_id_of(b)
}

/// The state of the view after it is asked to show `chat`: unchanged when
/// `chat` is the chat already shown.
pub open spec fn after_set_chat(h: ChatHistoryModel, chat: Option<ChatModel>) -> ChatHistoryModel {
    if same_chat(h.chat, chat) {
        h
    } else {
        ChatHistoryModel {
            compact: h.compact,
            chat,
            message_entry: match chat {
                Some(c) => c.draft_message,
                None => h.message_entry,
            },
        }
    }
}

/// The state of the view after the compact layout is switched on or off.
pub open spec fn after_set_compact(h: ChatHistoryModel, compact: bool) -> ChatHistoryModel {
    ChatHistoryModel { compact, ..h }
}

/// The state of the view after the message entry's text is replaced.
pub open spec fn after_set_entry(h: ChatHistoryModel, text: Seq<char>) -> ChatHistoryModel {
    ChatHistoryModel { message_entry: text, ..h }
}

/// The state of the view after its copy of the chat shown is refreshed with
/// `chat`: replaced when `chat` is the chat shown, unchanged otherwise.
pub open spec fn after_refresh_chat(h: ChatHistoryModel, chat: ChatModel) -> ChatHistoryModel {
    if same_chat(h.chat, Some(chat)) {
        ChatHistoryModel { chat: Some(chat), ..h }
    } else {
        h
    }
}

/// The state of the view after a message is sent: the entry is empty when a
/// chat is shown, and nothing changes otherwise.
pub open spec fn after_send_message(h: ChatHistoryModel) -> ChatHistoryModel {
    if h.chat is Some {
        ChatHistoryModel { message_entry: Seq::empty(), ..h }
    } else {
        h
    }
}

/// The draft request that `h` makes for its chat, when it makes one.
pub open spec fn draft_request_for(h: ChatHistoryModel, r: Option<SetChatDraftMessage>) -> bool {
    &&& (r is Some <==> needs_draft_save(h))
    &&& r matches Some(req) ==> {
        let c = h.chat.unwrap();
        &&& req.client_id == c.session.spec_client_id()
        &&& req.chat_id == c.id
        &&& req.text@ == h.message_entry
    }
}

/// The view of the history of one chat.
pub struct ChatHistory {
    compact: bool,
    chat: Option<Chat>,
    message_entry: String,
}

impl View for ChatHistory {
    type V = ChatHistoryModel;

    closed spec fn view(&self) -> ChatHistoryModel {
        ChatHistoryModel {
            compact: self.compact,
            chat: chat_view(self.chat),
            message_entry: self.message_entry@,
        }
    }
}

impl ChatHistory {
    /// A view that shows no chat, in the regular layout, with an empty entry.
    pub fn new() -> (h: ChatHistory)
        ensures
            h@ == (ChatHistoryModel {
                compact: false,
                chat: None,
                message_entry: Seq::empty(),
            }),
    {
        ChatHistory { compact: false, chat: None, message_entry: String::new() }
    }

    /// Whether the compact layout is used.
    pub fn compact(&self) -> (compact: bool)
        ensures
            compact == self@.compact,
    {
        self.compact
    }

    pub fn set_compact(&mut self, compact: bool)
        ensures
            final(self)@ == after_set_compact(old(self)@, compact),
    {
        self.compact = compact;
    }

    /// The text in the message entry.
    pub fn message_entry_text(&self) -> (text: String)
        ensures
            text@ == self@.message_entry,
    {
        self.message_entry.clone()
    }

    /// Replaces the text in the message entry, as typing does.
    pub fn set_message_entry_text(&mut self, text: String)
        ensures
            final(self)@ == after_set_entry(old(self)@, text@),
    {
        self.message_entry = text;
    }

    /// The chat shown.
    pub fn chat(&self) -> (chat: Option<&Chat>)
        ensures
            match chat {
                Some(c) => self@.chat == Some(c@),
                None => self@.chat is None,
            },
    {
        match &self.chat {
            Some(c) => Some(c),
            None => None,
        }
    }

    /// The view keeps its own copy of the chat it shows, which does not
    /// follow later changes of that chat by itself. When `chat` is the chat
    /// shown (it has the same id), this replaces the copy with it, which the
    /// caller gives as the chat's current state, so that the next decisions
    /// use its current draft; otherwise nothing changes.
    pub fn refresh_chat(&mut self, chat: Chat)
        ensures
            final(self)@ == after_refresh_chat(old(self)@, chat@),
    {
        let same = match &self.chat {
            Some(shown) => shown.id() == chat.id(),
            None => false,
        };
        if same {
            self.chat = Some(chat);
        }
    }

    /// Sends the text of the message entry to the chat shown, asking for its
    /// draft to be cleared, and empties the entry; nothing when no chat is
    /// shown.
    pub fn send_message(&mut self) -> (request: Option<SendMessage>)
        ensures
            final(self)@ == after_send_message(old(self)@),
            match old(self)@.chat {
                Some(c) => {
                    &&& request matches Some(r) && r.client_id == c.session.spec_client_id()
                        && r.chat_id == c.id && r.text@ == old(self)@.message_entry
                        && r.clear_draft
                },
                None => request is None,
            },
    {
        match &self.chat {
            Some(chat) => {
                let text = self.message_entry.clone();
                let request = SendMessage {
                    client_id: chat.session().client_id(),
                    chat_id: chat.id(),
                    text,
                    clear_draft: true,
                };
                self.message_entry = String::new();
                Some(request)
            },
            None => None,
        }
    }

    /// The request that stores the text of the message entry as the draft of
    /// the chat shown, made only when it differs from the chat's draft.
    pub fn save_draft_message(&self) -> (request: Option<SetChatDraftMessage>)
        ensures
            draft_request_for(self@, request),
    {
        match &self.chat {
            Some(chat) => {
                let draft = self.message_entry.clone();
                let current = chat.draft_message();
                if !(current == draft) {
                    Some(
                        SetChatDraftMessage {
                            client_id: chat.session().client_id(),
                            chat_id: chat.id(),
                            text: draft,
                        },
                    )
                } else {
                    None
                }
            },
            None => None,
        }
    }

    /// Shows `chat`. Nothing happens when it is the chat already shown (the
    /// same TDLib id, or no chat when none is shown). Otherwise the draft of
    /// the chat shown before is saved when it differs from the message entry,
    /// the entry takes the new chat's draft and its history is fetched and
    /// listed (when there is a new chat), `chat` replaces the chat shown, and
    /// the change is announced.
    pub fn set_chat(&mut self, chat: Option<Chat>) -> (outcome: SetChatOutcome)
        ensures
            final(self)@ == after_set_chat(old(self)@, chat_view(chat)),
            same_chat(old(self)@.chat, chat_view(chat)) ==> {
                &&& outcome.draft_request is None
                &&& !outcome.history_shown
                &&& !outcome.notified
            },
            !same_chat(old(self)@.chat, chat_view(chat)) ==> {
                &&& draft_request_for(old(self)@, outcome.draft_request)
                &&& outcome.history_shown == chat is Some
                &&& outcome.notified
            },
    {
        let same = match (&self.chat, &chat) {
            (None, None) => true,
            (Some(x), Some(y)) => x.id() == y.id(),
            _ => false,
        };
        if same {
            return SetChatOutcome { draft_request: None, history_shown: false, notified: false };
        }
        let draft_request = self.save_draft_message();
        let history_shown = match &chat {
            Some(c) => {
                self.message_entry = c.draft_message();
                true
            },
            None => false,
        };
        self.chat = chat;
        SetChatOutcome { draft_request, history_shown, notified: true }
    }
}

/// Leaving or checking a shown chat requests a draft save exactly when the
/// chat's draft differs from the entry, whatever the entry holds (an empty
/// entry over a draft saves the empty draft); the request carries the
/// entry's text for that chat and its session. With no chat shown, no
/// request is made.
pub proof fn lemma_draft_saved_iff_entry_differs(
    h: ChatHistoryModel,
    r: Option<SetChatDraftMessage>,
)
    requires
        draft_request_for(h, r),
    ensures
        h.chat is None ==> r is None,
        h.chat matches Some(c) ==> {
            &&& (r is Some <==> c.draft_message != h.message_entry)
            &&& r matches Some(req) ==> req.text@ == h.message_entry && req.chat_id == c.id
                && req.client_id == c.session.spec_client_id()
        },
{
}

/// Switching to a chat other than the one shown saves the draft of the chat
/// left exactly when its draft differs from the entry, puts the new chat's
/// draft (or, with no new chat, the old text) in the entry, and shows the
/// new chat; the layout stays.
pub proof fn lemma_switch_chat(h: ChatHistoryModel, chat: Option<ChatModel>)
    requires
        chat_id_of(h.chat) != chat_id_of(chat),
    ensures
        after_set_chat(h, chat).chat == chat,
        after_set_chat(h, chat).compact == h.compact,
        chat matches Some(c) ==> after_set_chat(h, chat).message_entry == c.draft_message,
        chat is None ==> after_set_chat(h, chat).message_entry == h.message_entry,
        needs_draft_save(h) <==> (h.chat matches Some(c) && c.draft_message != h.message_entry),
{
}

/// Sending with a chat shown empties the entry and keeps the chat and the
/// layout; with no chat shown nothing changes. Two chats are the same chat
/// exactly when their ids agree, so chats with different ids are never
/// taken for one another.
pub proof fn lemma_send_message_and_identity(
    h: ChatHistoryModel,
    a: Option<ChatModel>,
    b: Option<ChatModel>,
)
    ensures
        h.chat is Some ==> after_send_message(h).message_entry == Seq::<char>::empty()
            && after_send_message(h).chat == h.chat && after_send_message(h).compact == h.compact,
        h.chat is None ==> after_send_message(h) == h,
        same_chat(a, b) <==> match (a, b) {
            (Some(x), Some(y)) => x.id == y.id,
            (None, None) => true,
            _ => false,
        },
{
}

/// Showing the same chat twice is the same as showing it once.
pub proof fn lemma_set_chat_twice(h: ChatHistoryModel, chat: Option<ChatModel>)
    ensures
        after_set_chat(after_set_chat(h, chat), chat) == after_set_chat(h, chat),
{
}

/// Right after a chat other than the one shown is shown, its draft is in the
/// message entry, so saving the draft makes no request until the entry is
/// edited.
pub proof fn lemma_no_draft_save_after_switch(h: ChatHistoryModel, chat: ChatModel)
    requires
        !same_chat(h.chat, Some(chat)),
    ensures
        after_set_chat(h, Some(chat)).message_entry == chat.draft_message,
        !needs_draft_save(after_set_chat(h, Some(chat))),
{
}

/// The chat shown is the one last asked for: after `set_chat(chat)` the view
/// shows a chat with `chat`'s id (or none), and no other operation changes
/// which chat is shown.
pub proof fn lemma_shown_chat_is_last_set(
    h: ChatHistoryModel,
    chat: Option<ChatModel>,
    compact: bool,
    text: Seq<char>,
    current: ChatModel,
)
    ensures
        chat_id_of(after_set_chat(h, chat).chat) == chat_id_of(chat),
        chat_id_of(after_set_compact(h, compact).chat) == chat_id_of(h.chat),
        chat_id_of(after_set_entry(h, text).chat) == chat_id_of(h.chat),
        chat_id_of(after_send_message(h).chat) == chat_id_of(h.chat),
        chat_id_of(after_refresh_chat(h, current).chat) == chat_id_of(h.chat),
{
}

} // verus!
