//! Items of the merged event stream: platform updates, the internal control
//! signal, and the outbound actions the dispatcher decides on.

use vstd::prelude::*;

use crate::models::{Chat, ChatV};
use crate::store::rows_view;

verus! {

/// Exact string comparison against a fixed text.
pub fn string_eq(s: &String, lit: &str) -> (r: bool)
    ensures
        r == (s@ == lit@),
{
    let l: String = lit.to_owned();
    *s == l
}

/// Mathematical value of a platform user.
pub struct UserV {
    pub id: int,
    pub username: Seq<char>,
}

/// A platform user: the only parts of one the dispatcher reads.
pub struct User {
    pub id: i64,
    pub username: String,
}

impl View for User {
    type V = UserV;

    open spec fn view(&self) -> UserV {
        UserV { id: self.id as int, username: self.username@ }
    }
}

pub struct ChatInfoV {
    pub id: int,
    pub title: Option<Seq<char>>,
    pub kind: Seq<char>,
}

/// The chat a message arrived in. `kind` is the platform's chat kind string;
/// `"private"` marks a 1:1 conversation.
pub struct ChatInfo {
    pub id: i64,
    pub title: Option<String>,
    pub kind: String,
}

impl View for ChatInfo {
    type V = ChatInfoV;

    open spec fn view(&self) -> ChatInfoV {
        ChatInfoV {
            id: self.id as int,
            title: match self.title {
                Some(t) => Some(t@),
                None => None,
            },
            kind: self.kind@,
        }
    }
}

pub struct MessageV {
    pub chat: ChatInfoV,
    pub text: Option<Seq<char>>,
    pub new_chat_member: Option<UserV>,
    pub left_chat_member: Option<UserV>,
}

/// A message update. The optional membership sub-events name the user that
/// entered or left the chat.
pub struct Message {
    pub chat: ChatInfo,
    pub text: Option<String>,
    pub new_chat_member: Option<User>,
    pub left_chat_member: Option<User>,
}

impl View for Message {
    type V = MessageV;

    open spec fn view(&self) -> MessageV {
        MessageV {
            chat: self.chat@,
            text: match self.text {
                Some(t) => Some(t@),
                None => None,
            },
            new_chat_member: match self.new_chat_member {
                Some(u) => Some(u@),
                None => None,
            },
            left_chat_member: match self.left_chat_member {
                Some(u) => Some(u@),
                None => None,
            },
        }
    }
}

pub struct InlineQueryV {
    pub id: Seq<char>,
    pub from_id: int,
}

/// An inline query: a user asking the agent for completions.
pub struct InlineQuery {
    pub id: String,
    pub from_id: i64,
}

impl View for InlineQuery {
    type V = InlineQueryV;

    open spec fn view(&self) -> InlineQueryV {
        InlineQueryV { id: self.id@, from_id: self.from_id as int }
    }
}

pub struct CallbackQueryV {
    pub id: Seq<char>,
}

/// A callback query: a user pressed an inline keyboard button.
pub struct CallbackQuery {
    pub id: String,
}

impl View for CallbackQuery {
    type V = CallbackQueryV;

    open spec fn view(&self) -> CallbackQueryV {
        CallbackQueryV { id: self.id@ }
    }
}

pub enum UpdateV {
    Inline(InlineQueryV),
    Callback(CallbackQueryV),
    Message(MessageV),
    Other,
}

/// One item of the platform feed. Exactly one payload is populated per
/// delivered update; shapes the dispatcher does not recognize arrive as
/// `Other` and are dropped.
pub enum Update {
    Inline(InlineQuery),
    Callback(CallbackQuery),
    Message(Message),
    Other,
}

impl View for Update {
    type V = UpdateV;

    open spec fn view(&self) -> UpdateV {
        match self {
            Update::Inline(q) => UpdateV::Inline(q@),
            Update::Callback(q) => UpdateV::Callback(q@),
            Update::Message(m) => UpdateV::Message(m@),
            Update::Other => UpdateV::Other,
        }
    }
}

/// The internal lifecycle instruction, decoupled from the platform feed.
#[derive(Clone, Copy, PartialEq, Eq, Structural, Debug)]
pub enum ControlSignal {
    Stop,
}

pub enum StreamItemV {
    Control(ControlSignal),
    Platform(UpdateV),
}

/// One item of the merged stream: either a control signal or a platform
/// update, tagged with its source, in arrival order.
pub enum StreamItem {
    Control(ControlSignal),
    Platform(Update),
}

impl View for StreamItem {
    type V = StreamItemV;

    open spec fn view(&self) -> StreamItemV {
        match self {
            StreamItem::Control(c) => StreamItemV::Control(*c),
            StreamItem::Platform(u) => StreamItemV::Platform(u@),
        }
    }
}

pub struct ArticleV {
    pub title: Seq<char>,
    pub message_text: Seq<char>,
    pub button_text: Seq<char>,
    pub button_callback_data: Seq<char>,
}

/// One entry of an inline-query answer: a nomination offer with a single
/// action button.
pub struct Article {
    pub title: String,
    pub message_text: String,
    pub button_text: String,
    pub button_callback_data: String,
}

impl View for Article {
    type V = ArticleV;

    open spec fn view(&self) -> ArticleV {
        ArticleV {
            title: self.title@,
            message_text: self.message_text@,
            button_text: self.button_text@,
            button_callback_data: self.button_callback_data@,
        }
    }
}

/// The articles of an answer, as mathematical values, in order.
pub open spec fn articles_view(s: Seq<Article>) -> Seq<ArticleV> {
    s.map_values(|a: Article| a@)
}

pub proof fn lemma_articles_view_len(s: Seq<Article>)
    ensures
        articles_view(s).len() == s.len(),
{
}

pub proof fn lemma_articles_view_index(s: Seq<Article>, j: int)
    requires
        0 <= j < s.len(),
    ensures
        articles_view(s)[j] == s[j]@,
{
}

pub enum ActionV {
    SendMessage { chat_id: int, text: Seq<char> },
    AnswerCallbackQuery { query_id: Seq<char>, url: Seq<char> },
    FetchMemberStatuses { query_id: Seq<char>, user_id: int, chats: Seq<ChatV> },
    AnswerInlineQuery {
        query_id: Seq<char>,
        articles: Seq<ArticleV>,
        is_personal: bool,
        cache_time: i64,
    },
}

/// An outbound step the dispatcher asks its caller to perform against the
/// messaging client. `FetchMemberStatuses` is the one action that expects a
/// reply: the caller looks up the user's membership status in each listed
/// chat and hands the results to `finish_inline_query`.
pub enum Action {
    SendMessage { chat_id: i64, text: String },
    AnswerCallbackQuery { query_id: String, url: String },
    FetchMemberStatuses { query_id: String, user_id: i64, chats: Vec<Chat> },
    AnswerInlineQuery { query_id: String, articles: Vec<Article>, is_personal: bool, cache_time: i64 },
}

impl View for Action {
    type V = ActionV;

    open spec fn view(&self) -> ActionV {
        match self {
            Action::SendMessage { chat_id, text } => ActionV::SendMessage {
                chat_id: *chat_id as int,
                text: text@,
            },
            Action::AnswerCallbackQuery { query_id, url } => ActionV::AnswerCallbackQuery {
                query_id: query_id@,
                url: url@,
            },
            Action::FetchMemberStatuses { query_id, user_id, chats } => ActionV::FetchMemberStatuses {
                query_id: query_id@,
                user_id: *user_id as int,
                chats: rows_view(chats@),
            },
            Action::AnswerInlineQuery { query_id, articles, is_personal, cache_time } => ActionV::AnswerInlineQuery {
                query_id: query_id@,
                articles: articles_view(articles@),
                is_personal: *is_personal,
                cache_time: *cache_time,
            },
        }
    }
}

pub struct MemberLookupV {
    pub chat_id: int,
    pub title: Seq<char>,
    pub status: Seq<char>,
}

/// The answer to one membership-status lookup: the chat it was made for, the
/// chat's title as loaded from the store, and the platform's status string.
pub struct MemberLookup {
    pub chat_id: i64,
    pub title: String,
    pub status: String,
}

impl View for MemberLookup {
    type V = MemberLookupV;

    open spec fn view(&self) -> MemberLookupV {
        MemberLookupV {
            chat_id: self.chat_id as int,
            title: self.title@,
            status: self.status@,
        }
    }
}

/// The lookups of an inline answer, as mathematical values, in order.
pub open spec fn lookups_view(s: Seq<MemberLookup>) -> Seq<MemberLookupV> {
    s.map_values(|l: MemberLookup| l@)
}

pub proof fn lemma_lookups_view_len(s: Seq<MemberLookup>)
    ensures
        lookups_view(s).len() == s.len(),
{
}

pub proof fn lemma_lookups_view_index(s: Seq<MemberLookup>, j: int)
    requires
        0 <= j < s.len(),
    ensures
        lookups_view(s)[j] == s[j]@,
{
}

} // verus!
