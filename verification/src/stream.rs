//! Routing of platform updates to their handlers.
//!
//! `Handler::dispatch` classifies one update and performs its store work;
//! outbound traffic is returned as an [`Action`] for the caller to perform.
//! Routing precedence is fixed: a `/start` command is answered first (with a
//! "not ready" reply while the context is still empty); every other shape is
//! gated on the context and then routed by its variant; a message about the
//! agent's own membership goes to the join or leave handler, the join check
//! first.

use vstd::prelude::*;

use crate::context::{ctx_user, ctx_wf, Context};
use crate::models::NewChat;
use crate::store::{contains_id, lemma_without_id, unique_ids, without_id, ChatStore};
use crate::templates::{join_text, reply_start_text};
use crate::models::ChatV;
use crate::update::{
    Action, ActionV, Article, ArticleV, CallbackQuery, ChatInfoV, InlineQuery, MemberLookup,
    MemberLookupV, Message, MessageV, Update, UpdateV, UserV,
};
use crate::update::{
    articles_view, lemma_articles_view_index, lemma_articles_view_len, lemma_lookups_view_index,
    lemma_lookups_view_len, lookups_view, string_eq,
};

verus! {

/// The reply to a command that arrives before the context is populated.
pub const NOT_READY: &'static str = "Not ready yet :(";

/// The one registered slash-command.
pub const CMD_START: &'static str = "/start";

/// The fixed body of every inline result article.
pub const QUERY_REPLY_TEXT: &'static str = "I'm nominating you for invitation to {group}.\n\nAfter pressing the button below, you must also press the Start button.";

/// The caption of the one button under an inline result article.
pub const BUTTON_TEXT: &'static str = "Accept Nomination";

/// The callback payload of that button.
pub const BUTTON_DATA: &'static str = "http://wikipedia.org";

/// The deep link every callback query is acknowledged with.
pub const CALLBACK_URL: &'static str = "t.me/EnticeBot?start=hello";

/// A 1:1 conversation, as the platform marks it.
pub open spec fn is_private_chat(c: ChatInfoV) -> bool {
    c.kind == "private"@
}

/// A message whose text is exactly the start command.
pub open spec fn is_start_command(m: MessageV) -> bool {
    match m.text {
        Some(t) => t == CMD_START@,
        None => false,
    }
}

/// The message announces that the given user entered its chat.
pub open spec fn is_join_for(m: MessageV, user: UserV) -> bool {
    match m.new_chat_member {
        Some(u) => u.id == user.id,
        None => false,
    }
}

/// The message announces that the given user left its chat.
pub open spec fn is_leave_for(m: MessageV, user: UserV) -> bool {
    match m.left_chat_member {
        Some(u) => u.id == user.id,
        None => false,
    }
}

/// A chat's title, or empty where the platform sent none.
pub open spec fn chat_title_or_empty(c: ChatInfoV) -> Seq<char> {
    match c.title {
        Some(t) => t,
        None => Seq::empty(),
    }
}

/// The row a join for chat `c` stores at time `now`: the incoming id and
/// title, with an empty description placeholder.
pub open spec fn joined_row(c: ChatInfoV, now: int) -> ChatV {
    ChatV { id: c.id, title: chat_title_or_empty(c), description: Seq::empty(), last_updated: now }
}

/// What dispatching one update decides: the store rows afterwards and the
/// outbound action, if any.
#[verifier::ext_equal]
pub struct DispatchResultV {
    pub chats: Seq<ChatV>,
    pub action: Option<ActionV>,
}

/// The command handler's decision. Without a context the reply is the fixed
/// "not ready" text; with one, a private chat gets the rendered start reply
/// and a group gets nothing.
pub open spec fn spec_start_action(user: Option<UserV>, m: MessageV) -> Option<ActionV> {
    match user {
        None => Some(ActionV::SendMessage { chat_id: m.chat.id, text: NOT_READY@ }),
        Some(u) => if is_private_chat(m.chat) {
            Some(ActionV::SendMessage { chat_id: m.chat.id, text: reply_start_text(u.username) })
        } else {
            None
        },
    }
}

/// The join handler's decision. A duplicate id is benign: nothing changes
/// and no reply is sent. A fresh id is stored; the join reply is sent unless
/// the join came from a private chat.
pub open spec fn spec_join(user: UserV, chats: Seq<ChatV>, m: MessageV, now: int) -> DispatchResultV {
    if contains_id(chats, m.chat.id) {
        DispatchResultV { chats, action: None }
    } else {
        let stored = chats.push(joined_row(m.chat, now));
        if is_private_chat(m.chat) {
            DispatchResultV { chats: stored, action: None }
        } else {
            DispatchResultV {
                chats: stored,
                action: Some(
                    ActionV::SendMessage { chat_id: m.chat.id, text: join_text(user.username) },
                ),
            }
        }
    }
}

/// The message handler's decision: join first, then leave, else nothing.
pub open spec fn spec_message(user: UserV, chats: Seq<ChatV>, m: MessageV, now: int) -> DispatchResultV {
    if is_join_for(m, user) {
        spec_join(user, chats, m, now)
    } else if is_leave_for(m, user) {
        DispatchResultV { chats: without_id(chats, m.chat.id), action: None }
    } else {
        DispatchResultV { chats, action: None }
    }
}

/// What dispatching `upd` against state `(user, chats)` decides, exactly.
pub open spec fn spec_dispatch(
    user: Option<UserV>,
    chats: Seq<ChatV>,
    upd: UpdateV,
    now: int,
) -> DispatchResultV {
    match upd {
        UpdateV::Message(m) => if is_start_command(m) {
            DispatchResultV { chats, action: spec_start_action(user, m) }
        } else {
            match user {
                None => DispatchResultV { chats, action: None },
                Some(u) => spec_message(u, chats, m, now),
            }
        },
        UpdateV::Inline(q) => match user {
            None => DispatchResultV { chats, action: None },
            Some(u) => DispatchResultV {
                chats,
                action: Some(
                    ActionV::FetchMemberStatuses { query_id: q.id, user_id: q.from_id, chats },
                ),
            },
        },
        UpdateV::Callback(q) => match user {
            None => DispatchResultV { chats, action: None },
            Some(u) => DispatchResultV {
                chats,
                action: Some(ActionV::AnswerCallbackQuery { query_id: q.id, url: CALLBACK_URL@ }),
            },
        },
        UpdateV::Other => DispatchResultV { chats, action: None },
    }
}

/// The view of an optional action.
pub open spec fn opt_action_view(a: Option<Action>) -> Option<ActionV> {
    match a {
        Some(x) => Some(x@),
        None => None,
    }
}

/// A membership status that keeps a chat in an inline answer.
pub open spec fn allowed_status(s: Seq<char>) -> bool {
    s == "creator"@ || s == "administrator"@ || s == "member"@
}

/// The article offered for one qualifying chat.
pub open spec fn article_for(l: MemberLookupV) -> ArticleV {
    ArticleV {
        title: l.title,
        message_text: QUERY_REPLY_TEXT@,
        button_text: BUTTON_TEXT@,
        button_callback_data: BUTTON_DATA@,
    }
}

/// The articles of an inline answer: one per lookup whose status qualifies,
/// in lookup order.
pub open spec fn articles_for(results: Seq<MemberLookupV>) -> Seq<ArticleV>
    decreases results.len(),
{
    if results.len() == 0 {
        Seq::empty()
    } else {
        let rest = articles_for(results.drop_last());
        if allowed_status(results.last().status) {
            rest.push(article_for(results.last()))
        } else {
            rest
        }
    }
}

/// Context-gating law, per command: before the context is populated, a
/// `/start` command is answered with exactly the fixed "not ready" reply,
/// and the store is untouched.
pub proof fn lemma_command_not_ready(chats: Seq<ChatV>, m: MessageV, now: int)
    requires
        is_start_command(m),
    ensures
        spec_dispatch(None, chats, UpdateV::Message(m), now).chats == chats,
        spec_dispatch(None, chats, UpdateV::Message(m), now).action == Some(
            ActionV::SendMessage { chat_id: m.chat.id, text: NOT_READY@ },
        ),
{
}

/// Idempotence law: a second join for the same chat id changes nothing and
/// sends nothing — it is the benign duplicate condition. After the first
/// join the store holds a row with that id, and ids stay pairwise distinct,
/// so exactly one row carries it.
pub proof fn lemma_join_idempotent(user: UserV, chats: Seq<ChatV>, m: MessageV, now1: int, now2: int)
    requires
        unique_ids(chats),
        !is_start_command(m),
        is_join_for(m, user),
    ensures
        ({
            let r1 = spec_dispatch(Some(user), chats, UpdateV::Message(m), now1);
            let r2 = spec_dispatch(Some(user), r1.chats, UpdateV::Message(m), now2);
            &&& contains_id(r1.chats, m.chat.id)
            &&& unique_ids(r1.chats)
            &&& r2.chats == r1.chats
            &&& r2.action is None
        }),
{
    let r1 = spec_dispatch(Some(user), chats, UpdateV::Message(m), now1);
    if contains_id(chats, m.chat.id) {
        assert(r1.chats == chats);
    } else {
        let stored = chats.push(joined_row(m.chat, now1));
        assert(r1.chats == stored);
        assert(stored[stored.len() - 1].id == m.chat.id);
        assert(contains_id(stored, m.chat.id));
        assert forall|i: int, j: int|
            0 <= i < stored.len() && 0 <= j < stored.len() && i != j implies stored[i].id
            != stored[j].id by {
            if i < chats.len() && j < chats.len() {
            } else {
                let k = if i < chats.len() {
                    i
                } else {
                    j
                };
                if k < chats.len() {
                    assert(stored[k] == chats[k]);
                    if chats[k].id == m.chat.id {
                        assert(contains_id(chats, m.chat.id));
                    }
                }
            }
        }
    }
}

/// Leave law: after a leave for chat X, no row carries X's id, every other
/// id is kept exactly as it was — so a subsequent full load cannot include
/// X — and nothing is sent.
pub proof fn lemma_leave_then_load(user: UserV, chats: Seq<ChatV>, m: MessageV, now: int)
    requires
        !is_start_command(m),
        !is_join_for(m, user),
        is_leave_for(m, user),
    ensures
        !contains_id(spec_dispatch(Some(user), chats, UpdateV::Message(m), now).chats, m.chat.id),
        forall|x: int|
            x != m.chat.id ==> (contains_id(
                spec_dispatch(Some(user), chats, UpdateV::Message(m), now).chats,
                x,
            ) <==> contains_id(chats, x)),
        spec_dispatch(Some(user), chats, UpdateV::Message(m), now).action is None,
{
    lemma_without_id(chats, m.chat.id);
}

/// Whether an article is the one offered for some lookup of `results`
/// whose status qualifies.
pub open spec fn from_allowed_lookup(results: Seq<MemberLookupV>, a: ArticleV) -> bool {
    exists|j: int|
        0 <= j < results.len() && allowed_status(#[trigger] results[j].status) && a == article_for(
            results[j],
        )
}

/// Inline filtering law: the answer offers an article for every lookup
/// whose status is creator, administrator or member, and every offered
/// article belongs to such a lookup.
pub proof fn lemma_inline_filtering(results: Seq<MemberLookupV>)
    ensures
        forall|j: int|
            0 <= j < results.len() && allowed_status(results[j].status)
                ==> #[trigger] articles_for(results).contains(article_for(results[j])),
        forall|k: int|
            0 <= k < articles_for(results).len() ==> from_allowed_lookup(
                results,
                #[trigger] articles_for(results)[k],
            ),
    decreases results.len(),
{
    if results.len() > 0 {
        let dl = results.drop_last();
        lemma_inline_filtering(dl);
        let rest = articles_for(dl);
        let arts = articles_for(results);
        assert forall|j: int|
            0 <= j < results.len() && allowed_status(results[j].status) implies arts.contains(
            article_for(results[j]),
        ) by {
            if j < dl.len() {
                assert(dl[j] == results[j]);
                assert(rest.contains(article_for(dl[j])));
                let k = choose|k: int| 0 <= k < rest.len() && rest[k] == article_for(dl[j]);
                assert(arts[k] == article_for(results[j]));
            } else {
                assert(results[j] == results.last());
                assert(arts[arts.len() - 1] == article_for(results.last()));
            }
        }
        assert forall|k: int| 0 <= k < arts.len() implies from_allowed_lookup(results, arts[k]) by {
            if k < rest.len() {
                assert(from_allowed_lookup(dl, rest[k]));
                let j = choose|j: int|
                    0 <= j < dl.len() && allowed_status(#[trigger] dl[j].status) && rest[k]
                        == article_for(dl[j]);
                assert(results[j] == dl[j]);
                assert(arts[k] == rest[k]);
                assert(allowed_status(results[j].status) && arts[k] == article_for(results[j]));
            } else {
                assert(allowed_status(results.last().status));
                let j = results.len() - 1;
                assert(allowed_status(results[j].status) && arts[k] == article_for(results[j]));
            }
        }
    }
}

/// The update router. It owns no state: the context and the store are handed
/// in by the event loop that owns them.
pub struct Handler {}

impl Handler {
    pub fn new() -> (r: Handler) {
        Handler {  }
    }

    /// Whether the message carries exactly the start command.
    fn message_is_start(m: &Message) -> (r: bool)
        ensures
            r == is_start_command(m@),
    {
        match &m.text {
            Some(t) => string_eq(t, CMD_START),
            None => false,
        }
    }

    /// The command handler. Consults the context; absent one it replies that
    /// it is not ready, and with one it answers only private chats.
    fn handle_start(&self, ctx: &Option<Context>, m: &Message) -> (r: Option<Action>)
        requires
            ctx_wf(*ctx),
            is_start_command(m@),
        ensures
            opt_action_view(r) == spec_start_action(ctx_user(*ctx), m@),
    {
        match ctx {
            None => Some(
                Action::SendMessage { chat_id: m.chat.id, text: NOT_READY.to_owned() },
            ),
            Some(c) => {
                if string_eq(&m.chat.kind, "private") {
                    Some(
                        Action::SendMessage { chat_id: m.chat.id, text: c.start_reply.clone() },
                    )
                } else {
                    None
                }
            },
        }
    }

    /// The join handler: store the chat; treat a duplicate id as already
    /// tracked (no reply); otherwise reply into the group, but not into a
    /// private chat.
    fn handle_join_chat(&self, c: &Context, store: &mut ChatStore, m: &Message, now: i64) -> (r:
        Option<Action>)
        requires
            c.wf(),
            old(store).wf(),
            is_join_for(m@, c.user@),
        ensures
            final(store).wf(),
            final(store)@ == spec_join(c.user@, old(store)@, m@, now as int).chats,
            opt_action_view(r) == spec_join(c.user@, old(store)@, m@, now as int).action,
    {
        let title = match &m.chat.title {
            Some(t) => t.clone(),
            None => String::new(),
        };
        let row = NewChat { id: m.chat.id, title, description: String::new() };
        proof {
            assert(row.as_row(now as int) == joined_row(m.chat@, now as int));
        }
        match store.insert(row, now) {
            Err(_) => None,
            Ok(_stored) => {
                if string_eq(&m.chat.kind, "private") {
                    None
                } else {
                    Some(
                        Action::SendMessage { chat_id: m.chat.id, text: c.join_reply.clone() },
                    )
                }
            },
        }
    }

    /// The leave handler: best-effort removal of the row; never a reply.
    fn handle_left_chat(&self, store: &mut ChatStore, m: &Message) -> (r: Option<Action>)
        requires
            old(store).wf(),
        ensures
            final(store).wf(),
            final(store)@ == without_id(old(store)@, m.chat.id as int),
            r is None,
    {
        let _found = store.delete(m.chat.id);
        None
    }

    /// The message handler: the agent joining a chat takes precedence, then
    /// the agent leaving one; any other message is ignored by this core.
    fn handle_message(&self, c: &Context, store: &mut ChatStore, m: &Message, now: i64) -> (r:
        Option<Action>)
        requires
            c.wf(),
            old(store).wf(),
        ensures
            final(store).wf(),
            final(store)@ == spec_message(c.user@, old(store)@, m@, now as int).chats,
            opt_action_view(r) == spec_message(c.user@, old(store)@, m@, now as int).action,
    {
        let is_join = match &m.new_chat_member {
            Some(u) => u.id == c.user.id,
            None => false,
        };
        if is_join {
            return self.handle_join_chat(c, store, m, now);
        }
        let is_leave = match &m.left_chat_member {
            Some(u) => u.id == c.user.id,
            None => false,
        };
        if is_leave {
            return self.handle_left_chat(store, m);
        }
        None
    }

    /// The first half of the inline-query handler: load every tracked chat
    /// and ask the caller for the querying user's status in each.
    fn handle_inline_query(&self, store: &ChatStore, q: &InlineQuery) -> (r: Option<Action>)
        ensures
            opt_action_view(r) == Some(
                ActionV::FetchMemberStatuses {
                    query_id: q.id@,
                    user_id: q.from_id as int,
                    chats: store@,
                },
            ),
    {
        let chats = store.load_all();
        Some(Action::FetchMemberStatuses { query_id: q.id.clone(), user_id: q.from_id, chats })
    }

    /// The callback-query handler: acknowledge at once with the fixed deep
    /// link; no store interaction.
    fn handle_callback_query(&self, q: &CallbackQuery) -> (r: Option<Action>)
        ensures
            opt_action_view(r) == Some(
                ActionV::AnswerCallbackQuery { query_id: q.id@, url: CALLBACK_URL@ },
            ),
    {
        Some(Action::AnswerCallbackQuery { query_id: q.id.clone(), url: CALLBACK_URL.to_owned() })
    }

    /// Route one update. The store afterwards and the returned action are
    /// exactly what [`spec_dispatch`] decides for the update; `now` stamps
    /// any row a join stores.
    pub fn dispatch(&self, ctx: &Option<Context>, store: &mut ChatStore, upd: &Update, now: i64) -> (r:
        Option<Action>)
        requires
            ctx_wf(*ctx),
            old(store).wf(),
        ensures
            final(store).wf(),
            final(store)@ == spec_dispatch(ctx_user(*ctx), old(store)@, upd@, now as int).chats,
            opt_action_view(r) == spec_dispatch(ctx_user(*ctx), old(store)@, upd@, now as int).action,
    {
        match upd {
            Update::Message(m) => {
                if Self::message_is_start(m) {
                    self.handle_start(ctx, m)
                } else {
                    match ctx {
                        None => None,
                        Some(c) => self.handle_message(c, store, m, now),
                    }
                }
            },
            Update::Inline(q) => match ctx {
                None => None,
                Some(_c) => self.handle_inline_query(store, q),
            },
            Update::Callback(q) => match ctx {
                None => None,
                Some(_c) => self.handle_callback_query(q),
            },
            Update::Other => None,
        }
    }

    /// The second half of the inline-query handler: keep the chats whose
    /// looked-up status is creator, administrator or member, offer one
    /// article per kept chat, and answer the query marked personal and with
    /// caching disabled.
    pub fn finish_inline_query(&self, query_id: String, results: &Vec<MemberLookup>) -> (r: Action)
        ensures
            r@ == (ActionV::AnswerInlineQuery {
                query_id: query_id@,
                articles: articles_for(lookups_view(results@)),
                is_personal: true,
                cache_time: 0,
            }),
    {
        let ghost all = lookups_view(results@);
        let mut articles: Vec<Article> = Vec::new();
        let n = results.len();
        for i in 0..n
            invariant
                n == results.len(),
                all == lookups_view(results@),
                articles_view(articles@) =~= articles_for(all.take(i as int)),
        {
            let ghost t0 = all.take(i as int);
            let ghost t1 = all.take(i as int + 1);
            proof {
                lemma_lookups_view_len(results@);
                lemma_lookups_view_index(results@, i as int);
                assert(t1.drop_last() =~= t0);
                assert(t1.last() == all[i as int]);
            }
            let status = &results[i].status;
            let ok = string_eq(status, "creator") || string_eq(status, "administrator")
                || string_eq(status, "member");
            if ok {
                let a = Article {
                    title: results[i].title.clone(),
                    message_text: QUERY_REPLY_TEXT.to_owned(),
                    button_text: BUTTON_TEXT.to_owned(),
                    button_callback_data: BUTTON_DATA.to_owned(),
                };
                let ghost prev = articles@;
                articles.push(a);
                proof {
                    assert(allowed_status(t1.last().status));
                    assert(articles_for(t1) == articles_for(t0).push(article_for(t1.last())));
                    lemma_articles_view_len(prev);
                    assert forall|j: int| 0 <= j < articles@.len() implies articles_view(
                        articles@,
                    )[j] == articles_for(t1)[j] by {
                        lemma_articles_view_index(articles@, j);
                        if j < prev.len() {
                            assert(articles@[j] == prev[j]);
                            lemma_articles_view_index(prev, j);
                        } else {
                            assert(articles@[j] == a);
                            assert(a@ == article_for(t1.last()));
                        }
                    }
                    lemma_articles_view_len(articles@);
                    assert(articles_view(articles@) =~= articles_for(t1));
                }
            } else {
                proof {
                    assert(!allowed_status(t1.last().status));
                    assert(articles_for(t1) == articles_for(t0));
                }
            }
        }
        proof {
            assert(all.take(n as int) =~= all);
        }
        Action::AnswerInlineQuery { query_id, articles, is_personal: true, cache_time: 0 }
    }
}

} // verus!
