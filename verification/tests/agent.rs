use entice::context::Context;
use entice::entice::{EnticeBot, EventLoop};
use entice::errors::Error;
use entice::store::ChatStore;
use entice::stream::Handler;
use entice::templates::TemplateRegistry;
use entice::update::{
    Action, CallbackQuery, ChatInfo, ControlSignal, InlineQuery, MemberLookup, Message, StreamItem,
    Update, User,
};

fn agent() -> User {
    User { id: 7, username: "entice_bot".to_owned() }
}

fn group_chat(id: i64, title: &str) -> ChatInfo {
    ChatInfo { id, title: Some(title.to_owned()), kind: "supergroup".to_owned() }
}

fn private_chat(id: i64) -> ChatInfo {
    ChatInfo { id, title: None, kind: "private".to_owned() }
}

fn plain_message(chat: ChatInfo) -> Message {
    Message { chat, text: None, new_chat_member: None, left_chat_member: None }
}

fn join_message(chat: ChatInfo, user: User) -> Message {
    Message { chat, text: None, new_chat_member: Some(user), left_chat_member: None }
}

fn leave_message(chat: ChatInfo, user: User) -> Message {
    Message { chat, text: None, new_chat_member: None, left_chat_member: Some(user) }
}

fn start_message(chat: ChatInfo) -> Message {
    Message {
        chat,
        text: Some("/start".to_owned()),
        new_chat_member: None,
        left_chat_member: None,
    }
}

fn inline_item(id: &str, from_id: i64) -> StreamItem {
    StreamItem::Platform(Update::Inline(InlineQuery { id: id.to_owned(), from_id }))
}

fn running_loop() -> EventLoop {
    let mut lp = EventLoop::new().unwrap();
    lp.resolve_identity(agent()).unwrap();
    lp
}

#[test]
fn command_before_context_gets_not_ready() {
    let mut lp = EventLoop::new().unwrap();
    let item = StreamItem::Platform(Update::Message(start_message(private_chat(5))));
    let (stop, action) = lp.handle_item(&item, 1000);
    assert!(!stop);
    match action {
        Some(Action::SendMessage { chat_id, text }) => {
            assert_eq!(chat_id, 5);
            assert_eq!(text, "Not ready yet :(");
        }
        other => panic!("expected a not-ready reply, got {:?}", other.is_some()),
    }
}

#[test]
fn updates_before_context_mutate_nothing() {
    let mut lp = EventLoop::new().unwrap();
    let join = StreamItem::Platform(Update::Message(join_message(group_chat(42, "Test"), agent())));
    let (stop, action) = lp.handle_item(&join, 1000);
    assert!(!stop);
    assert!(action.is_none());
    // Populate the context afterwards: the store must still be empty.
    lp.resolve_identity(agent()).unwrap();
    let (_, action) = lp.handle_item(&inline_item("q1", 99), 1001);
    match action {
        Some(Action::FetchMemberStatuses { chats, .. }) => assert!(chats.is_empty()),
        _ => panic!("expected a member-status request"),
    }
}

#[test]
fn join_stores_row_and_replies_with_join_template() {
    let mut lp = running_loop();
    let join = StreamItem::Platform(Update::Message(join_message(group_chat(42, "Test"), agent())));
    let (stop, action) = lp.handle_item(&join, 1000);
    assert!(!stop);
    match action {
        Some(Action::SendMessage { chat_id, text }) => {
            assert_eq!(chat_id, 42);
            assert!(text.contains("@entice_bot"));
            assert!(text.starts_with("Hey! I'm @entice_bot."));
        }
        _ => panic!("expected the join reply"),
    }
    let (_, action) = lp.handle_item(&inline_item("q1", 99), 1001);
    match action {
        Some(Action::FetchMemberStatuses { query_id, user_id, chats }) => {
            assert_eq!(query_id, "q1");
            assert_eq!(user_id, 99);
            assert_eq!(chats.len(), 1);
            assert_eq!(chats[0].id, 42);
            assert_eq!(chats[0].title, "Test");
            assert_eq!(chats[0].description, "");
            assert_eq!(chats[0].last_updated, 1000);
        }
        _ => panic!("expected a member-status request"),
    }
}

#[test]
fn second_join_is_benign_and_stores_nothing() {
    let mut lp = running_loop();
    let join = StreamItem::Platform(Update::Message(join_message(group_chat(42, "Test"), agent())));
    let (_, first) = lp.handle_item(&join, 1000);
    assert!(first.is_some());
    let again = StreamItem::Platform(
        Update::Message(join_message(group_chat(42, "Test again"), agent())),
    );
    let (stop, second) = lp.handle_item(&again, 2000);
    assert!(!stop);
    assert!(second.is_none());
    let (_, action) = lp.handle_item(&inline_item("q1", 99), 3000);
    match action {
        Some(Action::FetchMemberStatuses { chats, .. }) => {
            assert_eq!(chats.len(), 1);
            assert_eq!(chats[0].title, "Test");
        }
        _ => panic!("expected a member-status request"),
    }
}

#[test]
fn private_join_stores_row_but_sends_nothing() {
    let mut lp = running_loop();
    let join = StreamItem::Platform(Update::Message(join_message(private_chat(9), agent())));
    let (_, action) = lp.handle_item(&join, 1000);
    assert!(action.is_none());
    let (_, action) = lp.handle_item(&inline_item("q1", 99), 1001);
    match action {
        Some(Action::FetchMemberStatuses { chats, .. }) => {
            assert_eq!(chats.len(), 1);
            assert_eq!(chats[0].id, 9);
            assert_eq!(chats[0].title, "");
        }
        _ => panic!("expected a member-status request"),
    }
}

#[test]
fn leave_removes_row_and_sends_nothing() {
    let mut lp = running_loop();
    let join = StreamItem::Platform(Update::Message(join_message(group_chat(42, "Test"), agent())));
    lp.handle_item(&join, 1000);
    let leave = StreamItem::Platform(
        Update::Message(leave_message(group_chat(42, "Test"), agent())),
    );
    let (stop, action) = lp.handle_item(&leave, 2000);
    assert!(!stop);
    assert!(action.is_none());
    let (_, action) = lp.handle_item(&inline_item("q1", 99), 3000);
    match action {
        Some(Action::FetchMemberStatuses { chats, .. }) => assert!(chats.is_empty()),
        _ => panic!("expected a member-status request"),
    }
}

#[test]
fn membership_of_others_is_ignored() {
    let mut lp = running_loop();
    let stranger = User { id: 1234, username: "someone".to_owned() };
    let join = StreamItem::Platform(Update::Message(join_message(group_chat(42, "Test"), stranger)));
    let (stop, action) = lp.handle_item(&join, 1000);
    assert!(!stop);
    assert!(action.is_none());
    let (_, action) = lp.handle_item(&inline_item("q1", 99), 1001);
    match action {
        Some(Action::FetchMemberStatuses { chats, .. }) => assert!(chats.is_empty()),
        _ => panic!("expected a member-status request"),
    }
}

#[test]
fn start_in_private_chat_gets_reply_start_template() {
    let mut lp = running_loop();
    let item = StreamItem::Platform(Update::Message(start_message(private_chat(5))));
    let (_, action) = lp.handle_item(&item, 1000);
    match action {
        Some(Action::SendMessage { chat_id, text }) => {
            assert_eq!(chat_id, 5);
            assert!(text.starts_with("Hello! I'm @entice_bot."));
            assert!(text.contains("add me as an administrator"));
        }
        _ => panic!("expected the start reply"),
    }
}

#[test]
fn start_in_group_chat_is_ignored() {
    let mut lp = running_loop();
    let item = StreamItem::Platform(Update::Message(start_message(group_chat(5, "Test"))));
    let (_, action) = lp.handle_item(&item, 1000);
    assert!(action.is_none());
}

#[test]
fn callback_query_is_acknowledged_with_deep_link() {
    let mut lp = running_loop();
    let item = StreamItem::Platform(Update::Callback(CallbackQuery { id: "cb1".to_owned() }));
    let (_, action) = lp.handle_item(&item, 1000);
    match action {
        Some(Action::AnswerCallbackQuery { query_id, url }) => {
            assert_eq!(query_id, "cb1");
            assert_eq!(url, "t.me/EnticeBot?start=hello");
        }
        _ => panic!("expected a callback acknowledgement"),
    }
}

#[test]
fn unrecognized_update_is_dropped() {
    let mut lp = running_loop();
    let (stop, action) = lp.handle_item(&StreamItem::Platform(Update::Other), 1000);
    assert!(!stop);
    assert!(action.is_none());
}

#[test]
fn stop_ends_run_and_later_updates_are_not_routed() {
    let mut lp = running_loop();
    let items = vec![
        StreamItem::Control(ControlSignal::Stop),
        StreamItem::Platform(Update::Message(join_message(group_chat(42, "Test"), agent()))),
    ];
    let actions = lp.run(&items, 1000);
    assert!(actions.is_empty());
    // The loop is past its stop: nothing further is processed.
    let join = StreamItem::Platform(Update::Message(join_message(group_chat(43, "Late"), agent())));
    let (stop, action) = lp.handle_item(&join, 2000);
    assert!(stop);
    assert!(action.is_none());
}

#[test]
fn run_routes_in_arrival_order_until_stop() {
    let mut lp = running_loop();
    let items = vec![
        StreamItem::Platform(Update::Message(join_message(group_chat(42, "Test"), agent()))),
        StreamItem::Platform(Update::Callback(CallbackQuery { id: "cb1".to_owned() })),
        StreamItem::Control(ControlSignal::Stop),
        StreamItem::Platform(Update::Callback(CallbackQuery { id: "cb2".to_owned() })),
    ];
    let actions = lp.run(&items, 1000);
    assert_eq!(actions.len(), 2);
    match &actions[0] {
        Action::SendMessage { chat_id, .. } => assert_eq!(*chat_id, 42),
        _ => panic!("expected the join reply first"),
    }
    match &actions[1] {
        Action::AnswerCallbackQuery { query_id, .. } => assert_eq!(query_id, "cb1"),
        _ => panic!("expected the first callback acknowledgement second"),
    }
}

#[test]
fn scenario_join_duplicate_leave_stop() {
    let mut lp = EventLoop::new().unwrap();
    lp.resolve_identity(User { id: 1, username: "u_bot".to_owned() }).unwrap();
    let join = StreamItem::Platform(Update::Message(join_message(group_chat(42, "Test"), User {
        id: 1,
        username: "u_bot".to_owned(),
    })));
    let (_, a1) = lp.handle_item(&join, 10);
    match a1 {
        Some(Action::SendMessage { chat_id, text }) => {
            assert_eq!(chat_id, 42);
            assert!(text.contains("u_bot"));
        }
        _ => panic!("expected an outbound join send"),
    }
    let (_, a2) = lp.handle_item(&join, 20);
    assert!(a2.is_none());
    let leave = StreamItem::Platform(Update::Message(leave_message(group_chat(42, "Test"), User {
        id: 1,
        username: "u_bot".to_owned(),
    })));
    let (_, a3) = lp.handle_item(&leave, 30);
    assert!(a3.is_none());
    let (stop, a4) = lp.handle_item(&StreamItem::Control(ControlSignal::Stop), 40);
    assert!(stop);
    assert!(a4.is_none());
    let (stop, a5) = lp.handle_item(&join, 50);
    assert!(stop);
    assert!(a5.is_none());
}

#[test]
fn inline_answer_keeps_member_chats_only() {
    let handler = Handler::new();
    let results = vec![
        MemberLookup { chat_id: 1, title: "A".to_owned(), status: "left".to_owned() },
        MemberLookup { chat_id: 2, title: "B".to_owned(), status: "member".to_owned() },
    ];
    let action = handler.finish_inline_query("q9".to_owned(), &results);
    match action {
        Action::AnswerInlineQuery { query_id, articles, is_personal, cache_time } => {
            assert_eq!(query_id, "q9");
            assert!(is_personal);
            assert_eq!(cache_time, 0);
            assert_eq!(articles.len(), 1);
            assert_eq!(articles[0].title, "B");
            assert!(articles[0].message_text.starts_with("I'm nominating you"));
            assert_eq!(articles[0].button_text, "Accept Nomination");
            assert_eq!(articles[0].button_callback_data, "http://wikipedia.org");
        }
        _ => panic!("expected an inline answer"),
    }
}

#[test]
fn inline_answer_statuses_creator_administrator_member_qualify() {
    let handler = Handler::new();
    let results = vec![
        MemberLookup { chat_id: 1, title: "A".to_owned(), status: "creator".to_owned() },
        MemberLookup { chat_id: 2, title: "B".to_owned(), status: "administrator".to_owned() },
        MemberLookup { chat_id: 3, title: "C".to_owned(), status: "member".to_owned() },
        MemberLookup { chat_id: 4, title: "D".to_owned(), status: "kicked".to_owned() },
        MemberLookup { chat_id: 5, title: "E".to_owned(), status: "restricted".to_owned() },
    ];
    let action = handler.finish_inline_query("q1".to_owned(), &results);
    match action {
        Action::AnswerInlineQuery { articles, .. } => {
            let titles: Vec<&str> = articles.iter().map(|a| a.title.as_str()).collect();
            assert_eq!(titles, vec!["A", "B", "C"]);
        }
        _ => panic!("expected an inline answer"),
    }
}

#[test]
fn store_insert_delete_load() {
    let mut store = ChatStore::new();
    let row = entice::models::NewChat {
        id: 10,
        title: "T".to_owned(),
        description: "".to_owned(),
    };
    let stored = store.insert(row, 111).unwrap();
    assert_eq!(stored.id, 10);
    assert_eq!(stored.title, "T");
    assert_eq!(stored.last_updated, 111);
    let dup = entice::models::NewChat {
        id: 10,
        title: "other".to_owned(),
        description: "".to_owned(),
    };
    assert!(store.insert(dup, 222).is_err());
    assert_eq!(store.load_all().len(), 1);
    assert!(store.delete(10));
    assert!(!store.delete(10));
    assert!(store.load_all().is_empty());
}

#[test]
fn lifecycle_start_twice_and_stop_after_finish() {
    let mut bot = EnticeBot::new();
    assert!(bot.start().is_ok());
    match bot.start() {
        Err(Error::AlreadyStarted) => {}
        _ => panic!("a second start must report already-started"),
    }
    match bot.stop() {
        Ok(ControlSignal::Stop) => {}
        _ => panic!("a stop before the run goes away yields the signal"),
    }
    bot.mark_finished();
    match bot.stop() {
        Err(Error::AlreadyStopped) => {}
        _ => panic!("a stop after the run went away must report already-stopped"),
    }
}

#[test]
fn context_renders_both_replies_once() {
    let templates = TemplateRegistry::new().unwrap();
    let ctx = Context::new(agent(), &templates).unwrap();
    assert!(ctx.join_reply.contains("@entice_bot"));
    assert!(ctx.join_reply.contains("anyone can invite friends"));
    assert!(ctx.start_reply.contains("@entice_bot"));
    assert!(ctx.start_reply.contains("add me as an administrator"));
}

#[test]
fn register_all_fills_a_real_registry() {
    let mut reg = handlebars::Handlebars::new();
    entice::templates::register_all(&mut reg).unwrap();
    let mut data = std::collections::BTreeMap::new();
    data.insert("username".to_owned(), "u_bot".to_owned());
    let joined = reg.render("join", &data).unwrap();
    assert_eq!(
        joined,
        "Hey! I'm @u_bot.\n\nNow that I'm here, anyone can invite friends to this group by mentioning me in your conversations."
    );
    let started = reg.render("reply_start", &data).unwrap();
    assert!(started.starts_with("Hello! I'm @u_bot."));
}

#[test]
fn errors_describe_themselves() {
    assert_eq!(Error::AlreadyStarted.describe(), "already started");
    assert_eq!(Error::AlreadyStopped.describe(), "already stopped");
    assert_eq!(Error::Template.describe(), "unable to compile a reply template");
    assert_eq!(
        Error::Config.describe(),
        "missing or malformed configuration value"
    );
}

#[test]
fn message_without_membership_or_command_is_ignored() {
    let mut lp = running_loop();
    let item = StreamItem::Platform(Update::Message(plain_message(group_chat(42, "Test"))));
    let (stop, action) = lp.handle_item(&item, 1000);
    assert!(!stop);
    assert!(action.is_none());
}
