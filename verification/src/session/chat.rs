//! A chat: its properties, and how the updates that TDLib sends about it
//! change them.

use vstd::prelude::*;

verus! {

/// The session a chat belongs to, held as what the chat logic reads of it:
/// the id of the TDLib client through which requests are sent.
#[derive(Clone, Copy, Debug, PartialEq, Eq, Structural)]
pub struct Session {
    client_id: i32,
}

impl Session {
    pub fn new(client_id: i32) -> (s: Session)
        ensures
            s.spec_client_id() == client_id,
    {
        Session { client_id }
    }

    pub closed spec fn spec_client_id(self) -> i32 {
        self.client_id
    }

    pub fn client_id(&self) -> (id: i32)
        ensures
            id == self.spec_client_id(),
    {
        self.client_id
    }
}

/// The type of a chat, as TDLib describes it.
#[derive(Clone, Copy, Debug, PartialEq, Eq, Structural)]
pub enum ChatType {
    Private { user_id: i64 },
    BasicGroup { basic_group_id: i64 },
    Supergroup { supergroup_id: i64, is_channel: bool },
    Secret { secret_chat_id: i32, user_id: i64 },
}

/// A list of chats in which a chat can have a position.
#[derive(Clone, Copy, Debug, PartialEq, Eq, Structural)]
pub enum ChatList {
    Main,
    Archive,
    Filter { chat_filter_id: i32 },
}

/// The position of a chat in one chat list.
#[derive(Clone, Copy, Debug, PartialEq, Eq, Structural)]
pub struct ChatPosition {
    pub list: ChatList,
    pub order: i64,
}

/// The content of a message that is being composed.
#[derive(Clone, Debug)]
pub enum InputMessageContent {
    Text { text: String },
    Other,
}

/// A draft of a message.
#[derive(Clone, Debug)]
pub struct DraftMessage {
    pub input_message_text: InputMessageContent,
}

/// An update from TDLib that concerns one chat.
#[derive(Clone, Debug)]
pub enum ChatUpdate {
    /// A new message arrived in the chat.
    NewMessage,
    /// The content of a message of the chat changed.
    MessageContent,
    /// The title of the chat changed.
    ChatTitle { title: String },
    /// The last message of the chat changed; `last_message` is its text, if
    /// there is one, and `positions` the new positions of the chat.
    ChatLastMessage { last_message: Option<String>, positions: Vec<ChatPosition> },
    /// The position of the chat in a chat list changed.
    ChatPosition { position: ChatPosition },
    /// Incoming messages were read.
    ChatReadInbox { unread_count: i32 },
    /// The draft of the chat changed.
    ChatDraftMessage { draft_message: Option<DraftMessage> },
    /// Any other update, which the chat ignores.
    Other,
}

/// A property of a chat whose change is announced.
#[derive(Clone, Copy, Debug, PartialEq, Eq, Structural)]
pub enum ChatProperty {
    Title,
    LastMessage,
    Order,
    UnreadCount,
    DraftMessage,
}

impl ChatProperty {
    /// The name under which the property is announced.
    pub fn name(&self) -> (name: &'static str)
        ensures
            name@ == match self {
                ChatProperty::Title => "title"@,
                ChatProperty::LastMessage => "last-message"@,
                ChatProperty::Order => "order"@,
                ChatProperty::UnreadCount => "unread-count"@,
                ChatProperty::DraftMessage => "draft-message"@,
            },
    {
        match self {
            ChatProperty::Title => "title",
            ChatProperty::LastMessage => "last-message",
            ChatProperty::Order => "order",
            ChatProperty::UnreadCount => "unread-count",
            ChatProperty::DraftMessage => "draft-message",
        }
    }
}

/// What handling an update did besides changing the chat.
pub struct UpdateOutcome {
    /// The update concerns the messages and was handed to the chat's history.
    pub forward_to_history: bool,
    /// The properties whose change was announced, in order.
    pub notified: Vec<ChatProperty>,
}

/// The abstract state of a chat.
#[verifier::ext_equal]
pub struct ChatModel {
    pub id: i64,
    pub chat_type: ChatType,
    pub title: Seq<char>,
    pub last_message: Seq<char>,
    pub order: i64,
    pub unread_count: i32,
    pub draft_message: Seq<char>,
    pub session: Session,
}

/// A chat.
#[derive(Clone, Debug)]
pub struct Chat {
    id: i64,
    chat_type: ChatType,
    title: String,
    last_message: String,
    order: i64,
    unread_count: i32,
    draft_message: String,
    session: Session,
}

impl View for Chat {
    type V = ChatModel;

    closed spec fn view(&self) -> ChatModel {
        ChatModel {
            id: self.id,
            chat_type: self.chat_type,
            title: self.title@,
            last_message: self.last_message@,
            order: self.order,
            unread_count: self.unread_count,
            draft_message: self.draft_message@,
            session: self.session,
        }
    }
}

/// The order of the chat in the main chat list, taken from the first of
/// `positions` that lies in that list, if any does.
pub open spec fn main_list_order(positions: Seq<ChatPosition>) -> Option<i64>
    decreases positions.len(),
{
    if positions.len() == 0 {
        None
    } else if positions[0].list is Main {
        Some(positions[0].order)
    } else {
        main_list_order(positions.drop_first())
    }
}

/// The text of a last message: empty when there is none.
pub open spec fn last_message_text(last_message: Option<String>) -> Seq<char> {
    match last_message {
        Some(text) => text@,
        None => Seq::empty(),
    }
}

/// The text of a draft: empty when there is none or it is not a text.
pub open spec fn draft_text(draft_message: Option<DraftMessage>) -> Seq<char> {
    match draft_message {
        Some(draft) => match draft.input_message_text {
            InputMessageContent::Text { text } => text@,
            InputMessageContent::Other => Seq::empty(),
        },
        None => Seq::empty(),
    }
}

/// The state of a chat after `update`.
pub open spec fn apply_update(c: ChatModel, update: ChatUpdate) -> ChatModel {
    match update {
        ChatUpdate::ChatTitle { title } => ChatModel { title: title@, ..c },
        ChatUpdate::ChatLastMessage { last_message, positions } => {
            let with_message = ChatModel { last_message: last_message_text(last_message), ..c };
            match main_list_order(positions@) {
                Some(order) => ChatModel { order, ..with_message },
                None => with_message,
            }
        },
        ChatUpdate::ChatPosition { position } => {
            if position.list is Main {
                ChatModel { order: position.order, ..c }
            } else {
                c
            }
        },
        ChatUpdate::ChatReadInbox { unread_count } => ChatModel { unread_count, ..c },
        ChatUpdate::ChatDraftMessage { draft_message } => ChatModel {
            draft_message: draft_text(draft_message),
            ..c
        },
        _ => c,
    }
}

/// `seq![p]` when `changed`, else the empty sequence.
pub open spec fn notice(changed: bool, p: ChatProperty) -> Seq<ChatProperty> {
    if changed {
        seq![p]
    } else {
        Seq::empty()
    }
}

/// The properties whose change handling `update` announces, in order.
pub open spec fn notifications(c: ChatModel, update: ChatUpdate) -> Seq<ChatProperty> {
    match update {
        ChatUpdate::ChatTitle { title } => notice(c.title != title@, ChatProperty::Title),
        ChatUpdate::ChatLastMessage { last_message, positions } => {
            notice(c.last_message != last_message_text(last_message), ChatProperty::LastMessage)
                + match main_list_order(positions@) {
                Some(order) => notice(c.order != order, ChatProperty::Order),
                None => Seq::empty(),
            }
        },
        ChatUpdate::ChatPosition { position } => {
            if position.list is Main {
                notice(c.order != position.order, ChatProperty::Order)
            } else {
                Seq::empty()
            }
        },
        ChatUpdate::ChatReadInbox { unread_count } => notice(
            c.unread_count != unread_count,
            ChatProperty::UnreadCount,
        ),
        ChatUpdate::ChatDraftMessage { draft_message } => notice(
            c.draft_message != draft_text(draft_message),
            ChatProperty::DraftMessage,
        ),
        _ => Seq::empty(),
    }
}

/// Whether `update` is handed on to the chat's history.
pub open spec fn forwards_to_history(update: ChatUpdate) -> bool {
    update is NewMessage || update is MessageContent
}

/// Whether property `p` differs between the states `a` and `b`.
pub open spec fn property_changed(a: ChatModel, b: ChatModel, p: ChatProperty) -> bool {
    match p {
        ChatProperty::Title => a.title != b.title,
        ChatProperty::LastMessage => a.last_message != b.last_message,
        ChatProperty::Order => a.order != b.order,
        ChatProperty::UnreadCount => a.unread_count != b.unread_count,
        ChatProperty::DraftMessage => a.draft_message != b.draft_message,
    }
}

/// An update never changes which chat it is: its id, its type and its session
/// stay as they were.
pub proof fn lemma_update_keeps_identity(c: ChatModel, update: ChatUpdate)
    ensures
        apply_update(c, update).id == c.id,
        apply_update(c, update).chat_type == c.chat_type,
        apply_update(c, update).session == c.session,
{
}

/// A property's change is announced exactly when the update changes its
/// value, and at most once.
pub proof fn lemma_notified_iff_changed(c: ChatModel, update: ChatUpdate, p: ChatProperty)
    ensures
        notifications(c, update).contains(p) <==> property_changed(
            c,
            apply_update(c, update),
            p,
        ),
        notifications(c, update).no_duplicates(),
{
    let n = notifications(c, update);
    match update {
        ChatUpdate::ChatLastMessage { last_message, positions } => {
            let a = notice(c.last_message != last_message_text(last_message), ChatProperty::LastMessage);
            let b = match main_list_order(positions@) {
                Some(order) => notice(c.order != order, ChatProperty::Order),
                None => Seq::empty(),
            };
            assert(n == a + b);
            assert(n.contains(p) ==> a.contains(p) || b.contains(p)) by {
                if n.contains(p) {
                    let i = choose|i: int| 0 <= i < n.len() && n[i] == p;
                    if i < a.len() {
                        assert(a[i] == p);
                    } else {
                        assert(b[i - a.len()] == p);
                    }
                }
            }
            if a.contains(p) {
                assert(n[0] == p);
            }
            if b.contains(p) {
                assert(n[a.len() as int] == p);
            }
        },
        _ => {
            if n.contains(p) {
                assert(n[0] == p);
            }
        },
    }
}

/// Handling the same update a second time changes nothing and announces
/// nothing.
pub proof fn lemma_update_idempotent(c: ChatModel, update: ChatUpdate)
    ensures
        apply_update(apply_update(c, update), update) == apply_update(c, update),
        notifications(apply_update(c, update), update) == Seq::<ChatProperty>::empty(),
{
    let once = apply_update(c, update);
    assert(apply_update(once, update) =~= once);
    assert(notifications(once, update) =~= Seq::<ChatProperty>::empty());
}

/// The first position in the main chat list decides the order, and a list
/// without one leaves it open.
proof fn lemma_main_list_order(positions: Seq<ChatPosition>)
    ensures
        (forall|i: int| 0 <= i < positions.len() ==> !(#[trigger] positions[i].list is Main))
            ==> main_list_order(positions) is None,
        forall|i: int|
            0 <= i < positions.len() && (#[trigger] positions[i]).list is Main && (forall|j: int|
                0 <= j < i ==> !(#[trigger] positions[j].list is Main)) ==> main_list_order(
                positions,
            ) == Some(positions[i].order),
    decreases positions.len(),
{
    if positions.len() > 0 {
        let rest = positions.drop_first();
        lemma_main_list_order(rest);
        assert forall|i: int|
            0 <= i < positions.len() && (#[trigger] positions[i]).list is Main && (forall|j: int|
                0 <= j < i ==> !(#[trigger] positions[j].list is Main)) implies main_list_order(
            positions,
        ) == Some(positions[i].order) by {
            if i > 0 {
                assert(!(positions[0].list is Main));
                assert(rest[i - 1] == positions[i]);
                assert forall|j: int| 0 <= j < i - 1 implies !(#[trigger] rest[j].list is Main) by {
                    assert(rest[j] == positions[j + 1]);
                }
            }
        }
        if forall|i: int| 0 <= i < positions.len() ==> !(#[trigger] positions[i].list is Main) {
            assert(!(positions[0].list is Main));
            assert forall|i: int| 0 <= i < rest.len() implies !(#[trigger] rest[i].list is Main) by {
                assert(rest[i] == positions[i + 1]);
            }
        }
    }
}

/// A title update sets the title to the update's title, whatever it was,
/// and changes nothing else; the title's change is announced exactly when
/// it differs from the old one.
pub proof fn lemma_title_update(c: ChatModel, title: String)
    ensures
        ({
            let after = apply_update(c, ChatUpdate::ChatTitle { title });
            &&& after == ChatModel { title: title@, ..c }
            &&& notifications(c, ChatUpdate::ChatTitle { title }) == if c.title != title@ {
                seq![ChatProperty::Title]
            } else {
                Seq::<ChatProperty>::empty()
            }
        }),
{
}

/// A last-message update sets the last message to its text, or to the empty
/// text when there is no last message; the order becomes that of the first
/// position in the main list, and stays when no position is in the main
/// list. Nothing else changes, and the last message's change is announced
/// before the order's, each exactly when the value changed.
pub proof fn lemma_last_message_update(
    c: ChatModel,
    last_message: Option<String>,
    positions: Vec<ChatPosition>,
)
    ensures
        ({
            let u = ChatUpdate::ChatLastMessage { last_message, positions };
            let after = apply_update(c, u);
            &&& last_message is None ==> after.last_message == Seq::<char>::empty()
            &&& last_message matches Some(text) ==> after.last_message == text@
            &&& (forall|i: int| 0 <= i < positions@.len() ==> !(#[trigger] positions@[i].list is Main))
                ==> after.order == c.order
            &&& forall|i: int|
                0 <= i < positions@.len() && (#[trigger] positions@[i]).list is Main && (forall|
                    j: int,
                | 0 <= j < i ==> !(#[trigger] positions@[j].list is Main)) ==> after.order
                    == positions@[i].order
            &&& after == ChatModel {
                last_message: after.last_message,
                order: after.order,
                ..c
            }
            &&& notifications(c, u) == (if c.last_message != after.last_message {
                seq![ChatProperty::LastMessage]
            } else {
                Seq::<ChatProperty>::empty()
            }) + (if c.order != after.order {
                seq![ChatProperty::Order]
            } else {
                Seq::<ChatProperty>::empty()
            })
        }),
{
    lemma_main_list_order(positions@);
    let u = ChatUpdate::ChatLastMessage { last_message, positions };
    let after = apply_update(c, u);
    if main_list_order(positions@) is None {
        assert(notice(c.order != after.order, ChatProperty::Order) =~= Seq::<ChatProperty>::empty());
    }
}

/// A position update in the main list sets the order to the position's
/// order; a position in another list changes nothing. The order's change is
/// announced exactly when it changes.
pub proof fn lemma_position_update(c: ChatModel, position: ChatPosition)
    ensures
        ({
            let u = ChatUpdate::ChatPosition { position };
            let after = apply_update(c, u);
            &&& position.list is Main ==> after == ChatModel { order: position.order, ..c }
            &&& !(position.list is Main) ==> after == c
            &&& notifications(c, u) == if c.order != after.order {
                seq![ChatProperty::Order]
            } else {
                Seq::<ChatProperty>::empty()
            }
        }),
{
}

/// A read-inbox update sets the unread count to the update's count, zero
/// included, whatever it was before, and changes nothing else; the change
/// is announced exactly when the count differs from the old one.
pub proof fn lemma_read_inbox_update(c: ChatModel, unread_count: i32)
    ensures
        ({
            let u = ChatUpdate::ChatReadInbox { unread_count };
            &&& apply_update(c, u) == ChatModel { unread_count, ..c }
            &&& notifications(c, u) == if c.unread_count != unread_count {
                seq![ChatProperty::UnreadCount]
            } else {
                Seq::<ChatProperty>::empty()
            }
        }),
{
}

/// A draft update sets the draft to the update's text draft, and to the
/// empty text when the update carries no draft or one that is not a text;
/// the new draft depends on the update only. Nothing else changes, and the
/// draft's change is announced exactly when it differs from the old one.
pub proof fn lemma_draft_update(c: ChatModel, other: ChatModel, draft_message: Option<DraftMessage>)
    ensures
        ({
            let u = ChatUpdate::ChatDraftMessage { draft_message };
            let after = apply_update(c, u);
            &&& draft_message is None ==> after.draft_message == Seq::<char>::empty()
            &&& draft_message matches Some(d) ==> match d.input_message_text {
                InputMessageContent::Text { text } => after.draft_message == text@,
                InputMessageContent::Other => after.draft_message == Seq::<char>::empty(),
            }
            &&& after.draft_message == apply_update(other, u).draft_message
            &&& after == ChatModel { draft_message: after.draft_message, ..c }
            &&& notifications(c, u) == if c.draft_message != after.draft_message {
                seq![ChatProperty::DraftMessage]
            } else {
                Seq::<ChatProperty>::empty()
            }
        }),
{
}

/// Updates about messages, and updates the chat does not handle, change
/// nothing and announce nothing; only the message updates go to the history.
pub proof fn lemma_other_updates(c: ChatModel)
    ensures
        apply_update(c, ChatUpdate::NewMessage) == c,
        apply_update(c, ChatUpdate::MessageContent) == c,
        apply_update(c, ChatUpdate::Other) == c,
        notifications(c, ChatUpdate::NewMessage) == Seq::<ChatProperty>::empty(),
        notifications(c, ChatUpdate::MessageContent) == Seq::<ChatProperty>::empty(),
        notifications(c, ChatUpdate::Other) == Seq::<ChatProperty>::empty(),
        forwards_to_history(ChatUpdate::NewMessage),
        forwards_to_history(ChatUpdate::MessageContent),
        !forwards_to_history(ChatUpdate::Other),
{
}

/// The order of the first position in the main chat list.
fn first_main_order(positions: &Vec<ChatPosition>) -> (order: Option<i64>)
    ensures
        order == main_list_order(positions@),
{
    let mut k: usize = 0;
    proof {
        assert(positions@.skip(0) =~= positions@);
    }
    while k < positions.len()
        invariant
            k <= positions.len(),
            main_list_order(positions@) == main_list_order(positions@.skip(k as int)),
        decreases positions.len() - k,
    {
        let position = positions[k];
        proof {
            let rest = positions@.skip(k as int);
            assert(rest[0] == position);
            assert(rest.drop_first() =~= positions@.skip(k + 1));
        }
        if let ChatList::Main = position.list {
            return Some(position.order);
        }
        k = k + 1;
    }
    proof {
        assert(positions@.skip(k as int).len() == 0);
    }
    None
}

impl Chat {
    /// A chat with the given id, type and title, in `session`; it has no last
    /// message, no draft, no unread message, and order 0.
    pub fn new(id: i64, chat_type: ChatType, title: String, session: Session) -> (chat: Chat)
        ensures
            chat@ == (ChatModel {
                id,
                chat_type,
                title: title@,
                last_message: Seq::empty(),
                order: 0,
                unread_count: 0,
                draft_message: Seq::empty(),
                session,
            }),
    {
        Chat {
            id,
            chat_type,
            title,
            last_message: String::new(),
            order: 0,
            unread_count: 0,
            draft_message: String::new(),
            session,
        }
    }

    /// Applies `update` to the chat. Each property is set only when its new
    /// value differs from the current one, and then its change is announced.
    pub fn handle_update(&mut self, update: ChatUpdate) -> (outcome: UpdateOutcome)
        ensures
            final(self)@ == apply_update(old(self)@, update),
            outcome.notified@ == notifications(old(self)@, update),
            outcome.forward_to_history == forwards_to_history(update),
    {
        let ghost u = update;
        let mut notified: Vec<ChatProperty> = Vec::new();
        let forward_to_history = match update {
            ChatUpdate::NewMessage | ChatUpdate::MessageContent => true,
            ChatUpdate::ChatTitle { title } => {
                self.set_title(title, &mut notified);
                false
            },
            ChatUpdate::ChatLastMessage { last_message, positions } => {
                let text = match last_message {
                    Some(text) => text,
                    None => String::new(),
                };
                self.set_last_message(text, &mut notified);
                match first_main_order(&positions) {
                    Some(order) => self.set_order(order, &mut notified),
                    None => {},
                }
                false
            },
            ChatUpdate::ChatPosition { position } => {
                if let ChatList::Main = position.list {
                    self.set_order(position.order, &mut notified);
                }
                false
            },
            ChatUpdate::ChatReadInbox { unread_count } => {
                self.set_unread_count(unread_count, &mut notified);
                false
            },
            ChatUpdate::ChatDraftMessage { draft_message } => {
                let mut text = String::new();
                if let Some(message) = draft_message {
                    if let InputMessageContent::Text { text: content } = message.input_message_text {
                        text = content;
                    }
                }
                self.set_draft_message(text, &mut notified);
                false
            },
            ChatUpdate::Other => false,
        };
        proof {
            assert(notified@ =~= notifications(old(self)@, u));
        }
        UpdateOutcome { forward_to_history, notified }
    }

    pub fn id(&self) -> (id: i64)
        ensures
            id == self@.id,
    {
        self.id
    }

    pub fn chat_type(&self) -> (chat_type: ChatType)
        ensures
            chat_type == self@.chat_type,
    {
        self.chat_type
    }

    pub fn title(&self) -> (title: String)
        ensures
            title@ == self@.title,
    {
        self.title.clone()
    }

    fn set_title(&mut self, title: String, notified: &mut Vec<ChatProperty>)
        ensures
            final(self)@ == (ChatModel { title: title@, ..old(self)@ }),
            final(notified)@ == old(notified)@ + notice(
                old(self)@.title != title@,
                ChatProperty::Title,
            ),
    {
        if !(self.title == title) {
            self.title = title;
            notified.push(ChatProperty::Title);
        }
    }

    pub fn last_message(&self) -> (last_message: String)
        ensures
            last_message@ == self@.last_message,
    {
        self.last_message.clone()
    }

    fn set_last_message(&mut self, last_message: String, notified: &mut Vec<ChatProperty>)
        ensures
            final(self)@ == (ChatModel { last_message: last_message@, ..old(self)@ }),
            final(notified)@ == old(notified)@ + notice(
                old(self)@.last_message != last_message@,
                ChatProperty::LastMessage,
            ),
    {
        if !(self.last_message == last_message) {
            self.last_message = last_message;
            notified.push(ChatProperty::LastMessage);
        }
    }

    pub fn order(&self) -> (order: i64)
        ensures
            order == self@.order,
    {
        self.order
    }

    fn set_order(&mut self, order: i64, notified: &mut Vec<ChatProperty>)
        ensures
            final(self)@ == (ChatModel { order, ..old(self)@ }),
            final(notified)@ == old(notified)@ + notice(
                old(self)@.order != order,
                ChatProperty::Order,
            ),
    {
        if self.order != order {
            self.order = order;
            notified.push(ChatProperty::Order);
        }
    }

    pub fn unread_count(&self) -> (unread_count: i32)
        ensures
            unread_count == self@.unread_count,
    {
        self.unread_count
    }

    fn set_unread_count(&mut self, unread_count: i32, notified: &mut Vec<ChatProperty>)
        ensures
            final(self)@ == (ChatModel { unread_count, ..old(self)@ }),
            final(notified)@ == old(notified)@ + notice(
                old(self)@.unread_count != unread_count,
                ChatProperty::UnreadCount,
            ),
    {
        if self.unread_count != unread_count {
            self.unread_count = unread_count;
            notified.push(ChatProperty::UnreadCount);
        }
    }

    pub fn draft_message(&self) -> (draft_message: String)
        ensures
            draft_message@ == self@.draft_message,
    {
        self.draft_message.clone()
    }

    fn set_draft_message(&mut self, draft_message: String, notified: &mut Vec<ChatProperty>)
        ensures
            final(self)@ == (ChatModel { draft_message: draft_message@, ..old(self)@ }),
            final(notified)@ == old(notified)@ + notice(
                old(self)@.draft_message != draft_message@,
                ChatProperty::DraftMessage,
            ),
    {
        if !(self.draft_message == draft_message) {
            self.draft_message = draft_message;
            notified.push(ChatProperty::DraftMessage);
        }
    }

    pub fn session(&self) -> (session: Session)
        ensures
            session == self@.session,
    {
        self.session
    }
}

} // verus!
