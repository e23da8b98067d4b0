//! Messages: what a graph-store node carries, and what a bot is handed.

use crate::frame::{is_readable, json_dump, nodes_of, readable, write_nodes};
use json::JsonValue;
use urbit_http_api::{Message, Node, NodeContents};
use vstd::prelude::*;

verus! {

/// The contents of a message, as the ship's API builds and reads them
/// (`Message` is its name for `NodeContents`). The library carries such a
/// value from a node to the bot, and from the bot to the chat, and never
/// looks inside.
#[verifier::external_type_specification]
#[verifier::external_body]
pub struct ExNodeContents(NodeContents);

/// `NodeContents`'s `Clone`, which `derive` wrote: the copy holds what the
/// contents hold.
pub assume_specification[ <NodeContents as Clone>::clone ](contents: &NodeContents) -> (copy:
    NodeContents)
    ensures
        copy == *contents,
;

/// The last time, in milliseconds since the Unix epoch, that the calendar
/// can still write out: the last millisecond of the year 262142.
pub const LAST_PRINTABLE_MILLIS: u64 = 8_210_266_876_799_999;

/// What the library reads of a graph-store node.
#[derive(Debug)]
pub struct Post {
    /// The ship that wrote the node, without a leading `~`.
    pub author: String,
    /// What the node says.
    pub contents: Message,
    /// When the node was sent, in milliseconds since the Unix epoch.
    pub time_sent: u64,
    /// The node's place in its graph.
    pub index: String,
}

/// A [`Post`] as the contracts speak of it.
pub struct PostView {
    pub author: Seq<char>,
    pub contents: Message,
    pub time_sent: u64,
    pub index: Seq<char>,
}

impl View for Post {
    type V = PostView;

    open spec fn view(&self) -> PostView {
        PostView {
            author: self.author@,
            contents: self.contents,
            time_sent: self.time_sent,
            index: self.index@,
        }
    }
}

/// A message with its author, the time it was sent and its index: what the
/// bot's function is handed.
#[derive(Clone, Debug)]
pub struct AuthoredMessage {
    /// The ship that wrote the message, without a leading `~`.
    pub author: String,
    /// What the message says.
    pub contents: Message,
    /// When the message was sent, in UTC: `YYYY-MM-DD HH:MM:SS` up to the
    /// year 9999, and with a `+` and more digits for the year after it
    /// (`+262142-12-31 23:59:59` is the last).
    pub time_sent: String,
    /// The message's place in the chat's graph.
    pub index: String,
}

/// An [`AuthoredMessage`] as the contracts speak of it.
pub struct AuthoredMessageView {
    pub author: Seq<char>,
    pub contents: Message,
    pub time_sent: Seq<char>,
    pub index: Seq<char>,
}

impl View for AuthoredMessage {
    type V = AuthoredMessageView;

    open spec fn view(&self) -> AuthoredMessageView {
        AuthoredMessageView {
            author: self.author@,
            contents: self.contents,
            time_sent: self.time_sent@,
            index: self.index@,
        }
    }
}

/// The author, the contents, the time and the index of the node that
/// `Node::from_graph_update_json` reads from an update, `None` where it
/// reports an error.
pub uninterp spec fn parsed_post(update: JsonValue) -> Option<PostView>;

/// The text that `Node::time_sent_formatted` writes for a node sent at
/// `millis`.
pub uninterp spec fn utc_text(millis: u64) -> Seq<char>;

/// The post that an update holds: what the node reader finds in it, `None`
/// where the text of its nodes is not [`readable`] or the reader reports an
/// error.
pub open spec fn update_post(update: JsonValue) -> Option<PostView> {
    if readable(json_dump(nodes_of(update))) {
        parsed_post(update)
    } else {
        None
    }
}

/// Calls `Node::from_graph_update_json` and moves the author, the contents,
/// the time and the index out of the node. Trusted: the outcome depends on
/// the update alone, and an error is handed back as `None`. The call writes
/// the update's nodes out and hands a part of that text to the JSON parser,
/// so the text must be one that the parser can be handed.
#[verifier::external_body]
pub(crate) fn parse_post(update: &JsonValue) -> (post: Option<Post>)
    requires
        readable(json_dump(nodes_of(*update))),
    ensures
        post is Some <==> parsed_post(*update) is Some,
        post is Some ==> post.unwrap()@ == parsed_post(*update).unwrap(),
{
    match Node::from_graph_update_json(update) {
        Ok(node) => Some(
            Post {
                author: node.author,
                contents: node.contents,
                time_sent: node.time_sent,
                index: node.index,
            },
        ),
        Err(_) => None,
    }
}

/// Calls `Node::time_sent_formatted` on a node sent at `time_sent`.
/// Trusted: the text depends on the time alone. The call panics where the
/// time lies beyond the calendar's last year, so such a time is not
/// admitted.
#[verifier::external_body]
pub(crate) fn format_time_sent(time_sent: u64) -> (text: String)
    requires
        time_sent <= LAST_PRINTABLE_MILLIS,
    ensures
        text@ == utc_text(time_sent),
{
    Node::new(String::new(), String::new(), time_sent, Vec::new(), NodeContents::new(), None)
        .time_sent_formatted()
}

/// Reads the post that an update holds.
pub fn read_post(update: &JsonValue) -> (post: Option<Post>)
    ensures
        post is Some <==> update_post(*update) is Some,
        post is Some ==> post.unwrap()@ == update_post(*update).unwrap(),
{
    let written = write_nodes(update);
    if is_readable(written.as_str()) {
        parse_post(update)
    } else {
        None
    }
}

impl AuthoredMessage {
    /// Puts a message together from its four parts.
    pub fn new(author: String, contents: Message, time_sent: String, index: String) -> (message:
        AuthoredMessage)
        ensures
            message.author == author,
            message.contents == contents,
            message.time_sent == time_sent,
            message.index == index,
    {
        AuthoredMessage { author, contents, time_sent, index }
    }
}

} // verus!
