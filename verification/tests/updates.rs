use urbit_chatbot_framework::updates::drain;
use urbit_chatbot_framework::{AuthoredMessage, Chatbot, Message};
use urbit_http_api::Subscription;

fn subscription(frames: Vec<String>) -> Subscription {
    Subscription {
        channel_uid: "1614556800000000".to_string(),
        creation_id: 2,
        app: "graph-store".to_string(),
        path: "/updates".to_string(),
        message_list: frames,
    }
}

fn frame(ship: &str, name: &str, author: &str, text: &str) -> String {
    format!(
        "{{\"graph-update\":{{\"add-nodes\":{{\"resource\":{{\"ship\":\"{}\",\"name\":\"{}\"}},\
         \"nodes\":{{\"/170141184505020984719232265951207489536\":{{\"post\":{{\"author\":\"{}\",\
         \"index\":\"/170141184505020984719232265951207489536\",\"time-sent\":1614556800000,\
         \"contents\":[{{\"text\":\"{}\"}}],\"hash\":null,\"signatures\":[]}},\"children\":null}}}}}}}}}}",
        ship, name, author, text
    )
}

fn repeat(message: AuthoredMessage) -> Option<Message> {
    let words = message.contents.to_formatted_words();
    if words.is_empty() || words[0] == "quiet" {
        None
    } else {
        Some(Message::new().add_text(&format!("{} said {}", message.author, words[0])))
    }
}

#[test]
fn drain_hands_out_every_frame_oldest_first() {
    let mut updates = subscription(vec!["a".to_string(), "b".to_string(), "c".to_string()]);
    assert_eq!(drain(&mut updates), vec!["a".to_string(), "b".to_string(), "c".to_string()]);
    assert!(updates.message_list.is_empty());
}

#[test]
fn drain_of_an_empty_subscription_is_empty() {
    let mut updates = subscription(vec![]);
    assert!(drain(&mut updates).is_empty());
    assert!(updates.message_list.is_empty());
}

#[test]
fn poll_empties_the_subscription_and_keeps_the_order() {
    let bot = Chatbot::new(repeat, "mocrux-nomdep", "~mocrux-nomdep", "test-93");
    let mut updates = subscription(vec![
        frame("mocrux-nomdep", "test-93", "fred", "one"),
        "not json at all".to_string(),
        frame("mocrux-nomdep", "test-93", "wilma", "quiet"),
        frame("other-ship", "other-chat", "barney", "two"),
        frame("mocrux-nomdep", "test-93", "mocrux-nomdep", "three"),
        frame("mocrux-nomdep", "test-93", "betty", "four"),
    ]);
    let replies = bot.poll(&mut updates);
    assert!(updates.message_list.is_empty());
    let texts: Vec<String> = replies.iter().map(|reply| reply.to_formatted_string()).collect();
    assert_eq!(texts, vec![" fred said one".to_string(), " betty said four".to_string()]);
}

#[test]
fn poll_of_an_empty_subscription_gives_no_reply() {
    let bot = Chatbot::new(repeat, "mocrux-nomdep", "~mocrux-nomdep", "test-93");
    let mut updates = subscription(vec![]);
    assert!(bot.poll(&mut updates).is_empty());
}

#[test]
fn skipped_frame_leaves_the_other_replies_as_they_are() {
    let bot = Chatbot::new(repeat, "mocrux-nomdep", "~mocrux-nomdep", "test-93");
    let good = vec![
        frame("mocrux-nomdep", "test-93", "fred", "one"),
        frame("mocrux-nomdep", "test-93", "betty", "two"),
    ];
    let expected: Vec<String> =
        bot.respond_to_all(&good).iter().map(|reply| reply.to_formatted_string()).collect();
    assert_eq!(expected.len(), 2);
    for at in 0..=good.len() {
        let mut frames = good.clone();
        frames.insert(at, "{\"graph-update\":".to_string());
        let texts: Vec<String> =
            bot.respond_to_all(&frames).iter().map(|reply| reply.to_formatted_string()).collect();
        assert_eq!(texts, expected);
    }
}

#[test]
fn poll_outcomes_empties_the_subscription_and_tells_of_each_frame() {
    let bot = Chatbot::new(repeat, "mocrux-nomdep", "~mocrux-nomdep", "test-93");
    let mut updates = subscription(vec![
        frame("mocrux-nomdep", "test-93", "wilma", "quiet"),
        frame("mocrux-nomdep", "test-93", "fred", "one"),
        "not json at all".to_string(),
    ]);
    let outcomes = bot.poll_outcomes(&mut updates);
    assert!(updates.message_list.is_empty());
    assert_eq!(outcomes.len(), 3);
    assert!(matches!(outcomes[0], urbit_chatbot_framework::Outcome::Ignored));
    assert!(matches!(
        &outcomes[1],
        urbit_chatbot_framework::Outcome::Replied(reply)
            if reply.to_formatted_string() == " fred said one"
    ));
    assert!(matches!(
        outcomes[2],
        urbit_chatbot_framework::Outcome::Skipped(urbit_chatbot_framework::Skip::Unreadable)
    ));
}
