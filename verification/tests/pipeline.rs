use std::cell::Cell;

use urbit_chatbot_framework::{AuthoredMessage, Chatbot, Message, Outcome, Skip};

fn frame(ship: &str, name: &str, author: &str, text: &str, time_sent: u64) -> String {
    format!(
        "{{\"graph-update\":{{\"add-nodes\":{{\"resource\":{{\"ship\":\"{}\",\"name\":\"{}\"}},\
         \"nodes\":{{\"/170141184505020984719232265951207489536\":{{\"post\":{{\"author\":\"{}\",\
         \"index\":\"/170141184505020984719232265951207489536\",\"time-sent\":{},\
         \"contents\":[{{\"text\":\"{}\"}}],\"hash\":null,\"signatures\":[]}},\"children\":null}}}}}}}}}}",
        ship, name, author, time_sent, text
    )
}

fn silent(_message: AuthoredMessage) -> Option<Message> {
    None
}

fn pong(_message: AuthoredMessage) -> Option<Message> {
    Some(Message::new().add_text("pong"))
}

#[test]
fn message_for_the_chat_reaches_the_callback() {
    let seen: Cell<Option<AuthoredMessage>> = Cell::new(None);
    let bot = Chatbot::new(
        |message: AuthoredMessage| {
            seen.set(Some(message));
            None
        },
        "mocrux-nomdep",
        "~mocrux-nomdep",
        "test-93",
    );
    let outcome = bot.handle_frame(&frame("mocrux-nomdep", "test-93", "fred", "hello", 1614556800000));
    assert!(matches!(outcome, Outcome::Ignored));
    let message = seen.take().expect("the callback was called");
    assert_eq!(message.author, "fred");
    assert_eq!(message.contents.to_formatted_words(), vec!["hello".to_string()]);
    assert_eq!(message.time_sent, "2021-03-01 00:00:00");
    assert_eq!(message.index, "/170141184505020984719232265951207489536");
}

#[test]
fn own_message_is_left_out() {
    let calls = Cell::new(0u32);
    let bot = Chatbot::new(
        |_message: AuthoredMessage| {
            calls.set(calls.get() + 1);
            Some(Message::new().add_text("pong"))
        },
        "mocrux-nomdep",
        "~mocrux-nomdep",
        "test-93",
    );
    let text = frame("mocrux-nomdep", "test-93", "mocrux-nomdep", "hello", 1614556800000);
    assert!(matches!(bot.classify(&text), Err(Skip::OwnPost)));
    assert!(matches!(bot.handle_frame(&text), Outcome::Skipped(Skip::OwnPost)));
    assert_eq!(calls.get(), 0);
}

#[test]
fn frame_of_another_chat_is_discarded() {
    let calls = Cell::new(0u32);
    let bot = Chatbot::new(
        |_message: AuthoredMessage| {
            calls.set(calls.get() + 1);
            Some(Message::new().add_text("pong"))
        },
        "mocrux-nomdep",
        "~mocrux-nomdep",
        "test-93",
    );
    let text = frame("other-ship", "other-chat", "fred", "hello", 1614556800000);
    assert!(matches!(bot.classify(&text), Err(Skip::OtherChat)));
    assert!(matches!(bot.handle_frame(&text), Outcome::Skipped(Skip::OtherChat)));
    assert_eq!(calls.get(), 0);
}

#[test]
fn malformed_frame_does_not_stop_the_batch() {
    let bot = Chatbot::new(pong, "mocrux-nomdep", "~mocrux-nomdep", "test-93");
    let frames = vec![
        "{ this is no json".to_string(),
        frame("mocrux-nomdep", "test-93", "fred", "ping", 1614556800000),
    ];
    let replies = bot.respond_to_all(&frames);
    assert_eq!(replies.len(), 1);
    assert_eq!(replies[0].to_formatted_words(), vec!["pong".to_string()]);
}

#[test]
fn silent_callback_gives_no_reply() {
    let bot = Chatbot::new(silent, "mocrux-nomdep", "~mocrux-nomdep", "test-93");
    let frames = vec![frame("mocrux-nomdep", "test-93", "fred", "ping", 1614556800000)];
    assert!(bot.respond_to_all(&frames).is_empty());
}

#[test]
fn frame_without_a_node_is_malformed() {
    let bot = Chatbot::new(pong, "mocrux-nomdep", "~mocrux-nomdep", "test-93");
    let text = "{\"graph-update\":{\"add-nodes\":{\"resource\":{\"ship\":\"mocrux-nomdep\",\
                \"name\":\"test-93\"}}}}";
    assert!(matches!(bot.classify(text), Err(Skip::Malformed)));
    let no_author = "{\"graph-update\":{\"add-nodes\":{\"resource\":{\"ship\":\"mocrux-nomdep\",\
                     \"name\":\"test-93\"},\"nodes\":{\"/1\":{\"post\":{\"index\":\"/1\",\
                     \"time-sent\":1614556800000,\"contents\":[],\"hash\":null,\"signatures\":[]},\
                     \"children\":null}}}}}";
    assert!(matches!(bot.classify(no_author), Err(Skip::Malformed)));
    assert!(matches!(bot.handle_frame(no_author), Outcome::Skipped(Skip::Malformed)));
}

#[test]
fn frame_that_is_no_json_is_unreadable() {
    let bot = Chatbot::new(pong, "mocrux-nomdep", "~mocrux-nomdep", "test-93");
    assert!(matches!(bot.classify(""), Err(Skip::Unreadable)));
    assert!(matches!(bot.classify("{\"graph-update\":"), Err(Skip::Unreadable)));
    assert!(matches!(bot.handle_frame("pong"), Outcome::Skipped(Skip::Unreadable)));
}

#[test]
fn time_beyond_the_calendar_is_malformed() {
    let bot = Chatbot::new(pong, "mocrux-nomdep", "~mocrux-nomdep", "test-93");
    let last = bot
        .classify(&frame("mocrux-nomdep", "test-93", "fred", "hello", 8_210_266_876_799_999))
        .expect("the last millisecond of the calendar can be written");
    assert_eq!(last.time_sent, "+262142-12-31 23:59:59");
    let beyond = frame("mocrux-nomdep", "test-93", "fred", "hello", 8_210_266_876_800_000);
    assert!(matches!(bot.classify(&beyond), Err(Skip::Malformed)));
    let far = frame("mocrux-nomdep", "test-93", "fred", "hello", u64::MAX);
    assert!(matches!(bot.classify(&far), Err(Skip::Malformed)));
    let first = bot
        .classify(&frame("mocrux-nomdep", "test-93", "fred", "hello", 0))
        .expect("the epoch can be written");
    assert_eq!(first.time_sent, "1970-01-01 00:00:00");
}

#[test]
fn own_post_with_a_time_beyond_the_calendar_is_an_own_post() {
    let bot = Chatbot::new(pong, "mocrux-nomdep", "~mocrux-nomdep", "test-93");
    let text = frame("mocrux-nomdep", "test-93", "mocrux-nomdep", "hello", u64::MAX);
    assert!(matches!(bot.classify(&text), Err(Skip::OwnPost)));
}

#[test]
fn dispatch_hands_back_what_the_callback_returns() {
    let bot = Chatbot::new(pong, "mocrux-nomdep", "~mocrux-nomdep", "test-93");
    let message = AuthoredMessage::new(
        "fred".to_string(),
        Message::new().add_text("ping"),
        "2021-03-01 00:00:00".to_string(),
        "/1".to_string(),
    );
    let reply = bot.dispatch(message).expect("the callback replies");
    assert_eq!(reply.to_formatted_string(), " pong");
    let quiet = Chatbot::new(silent, "mocrux-nomdep", "~mocrux-nomdep", "test-93");
    let message = AuthoredMessage::new(
        "fred".to_string(),
        Message::new().add_text("ping"),
        "2021-03-01 00:00:00".to_string(),
        "/1".to_string(),
    );
    assert!(quiet.dispatch(message).is_none());
}

#[test]
fn normalize_reads_the_node_of_an_update() {
    let bot = Chatbot::new(pong, "mocrux-nomdep", "~mocrux-nomdep", "test-93");
    let update = json::parse(&frame("any-ship", "any-chat", "wilma", "good day", 1614556801999))
        .expect("the frame is JSON");
    let message = bot.normalize(&update).expect("the update holds a node");
    assert_eq!(message.author, "wilma");
    assert_eq!(message.contents.to_formatted_string(), " good day");
    assert_eq!(message.time_sent, "2021-03-01 00:00:01");
    assert_eq!(message.index, "/170141184505020984719232265951207489536");
}

#[test]
fn batch_gives_one_reply_for_each_message_answered() {
    let calls = Cell::new(0u32);
    let bot = Chatbot::new(
        |message: AuthoredMessage| {
            calls.set(calls.get() + 1);
            if message.author == "fred" {
                Some(Message::new().add_text(&format!("call {}", calls.get())))
            } else {
                None
            }
        },
        "mocrux-nomdep",
        "~mocrux-nomdep",
        "test-93",
    );
    let frames = vec![
        frame("mocrux-nomdep", "test-93", "fred", "a", 1614556800000),
        frame("mocrux-nomdep", "test-93", "wilma", "b", 1614556800000),
        frame("mocrux-nomdep", "test-93", "mocrux-nomdep", "c", 1614556800000),
        frame("mocrux-nomdep", "test-93", "fred", "d", 1614556800000),
    ];
    let replies = bot.respond_to_all(&frames);
    assert_eq!(calls.get(), 3);
    let texts: Vec<String> = replies.iter().map(|reply| reply.to_formatted_string()).collect();
    assert_eq!(texts, vec![" call 1".to_string(), " call 3".to_string()]);
}

#[test]
fn screen_turns_away_own_posts_and_unwritable_times() {
    let bot = Chatbot::new(pong, "mocrux-nomdep", "~mocrux-nomdep", "test-93");
    let post = |author: &str, time_sent: u64| urbit_chatbot_framework::message::Post {
        author: author.to_string(),
        contents: Message::new().add_text("hello"),
        time_sent,
        index: "/1".to_string(),
    };
    assert_eq!(bot.screen(&post("fred", 1614556800000)), None);
    assert_eq!(bot.screen(&post("~mocrux-nomdep", 1614556800000)), None);
    assert_eq!(bot.screen(&post("mocrux-nomdep", 1614556800000)), Some(Skip::OwnPost));
    assert_eq!(bot.screen(&post("fred", 8_210_266_876_799_999)), None);
    assert_eq!(bot.screen(&post("fred", 8_210_266_876_800_000)), Some(Skip::Malformed));
    assert_eq!(bot.screen(&post("mocrux-nomdep", u64::MAX)), Some(Skip::OwnPost));
}

#[test]
fn authored_message_can_be_cloned() {
    let message = AuthoredMessage::new(
        "fred".to_string(),
        Message::new().add_text("ping").add_mention("wilma"),
        "2021-03-01 00:00:00".to_string(),
        "/1".to_string(),
    );
    let copy = message.clone();
    assert_eq!(copy.author, message.author);
    assert_eq!(copy.contents.to_json().dump(), message.contents.to_json().dump());
    assert_eq!(copy.contents.to_formatted_string(), " ping ~wilma");
    assert_eq!(copy.time_sent, message.time_sent);
    assert_eq!(copy.index, message.index);
}

#[test]
fn batch_tells_what_became_of_each_frame() {
    let bot = Chatbot::new(
        |message: AuthoredMessage| {
            if message.author == "fred" {
                Some(Message::new().add_text("pong"))
            } else {
                None
            }
        },
        "mocrux-nomdep",
        "~mocrux-nomdep",
        "test-93",
    );
    let frames = vec![
        frame("mocrux-nomdep", "test-93", "fred", "a", 1614556800000),
        "]".to_string(),
        frame("mocrux-nomdep", "test-93", "wilma", "b", 1614556800000),
        frame("mocrux-nomdep", "test-93", "mocrux-nomdep", "c", 1614556800000),
        frame("other-ship", "test-93", "fred", "d", 1614556800000),
        frame("mocrux-nomdep", "test-93", "fred", "e", u64::MAX),
    ];
    let outcomes = bot.handle_all(&frames);
    assert_eq!(outcomes.len(), 6);
    assert!(matches!(outcomes[0], Outcome::Replied(_)));
    assert!(matches!(outcomes[1], Outcome::Skipped(Skip::Unreadable)));
    assert!(matches!(outcomes[2], Outcome::Ignored));
    assert!(matches!(outcomes[3], Outcome::Skipped(Skip::OwnPost)));
    assert!(matches!(outcomes[4], Outcome::Skipped(Skip::OtherChat)));
    assert!(matches!(outcomes[5], Outcome::Skipped(Skip::Malformed)));
    let replies = urbit_chatbot_framework::collect_replies(outcomes);
    assert_eq!(replies.len(), 1);
    assert_eq!(replies[0].to_formatted_string(), " pong");
}

#[test]
fn replies_are_collected_in_the_order_of_the_outcomes() {
    let outcomes = vec![
        Outcome::Ignored,
        Outcome::Replied(Message::new().add_text("one")),
        Outcome::Skipped(Skip::OtherChat),
        Outcome::Replied(Message::new().add_text("two")),
        Outcome::Replied(Message::new().add_text("three")),
        Outcome::Skipped(Skip::Unreadable),
    ];
    let texts: Vec<String> = urbit_chatbot_framework::collect_replies(outcomes)
        .iter()
        .map(|reply| reply.to_formatted_string())
        .collect();
    assert_eq!(texts, vec![" one".to_string(), " two".to_string(), " three".to_string()]);
    assert!(urbit_chatbot_framework::collect_replies(vec![]).is_empty());
}
