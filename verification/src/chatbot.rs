//! The chatbot: which frames it takes up, what it hands to the bot's
//! function, and which replies come of a batch of frames.

use crate::batch::{
    collect_replies, lemma_at_most_one_reply_each, lemma_replies_keep_order,
    lemma_skipped_adds_no_reply, origins, replies_of, Outcome, Skip,
};
use crate::frame::{
    frame_json, read_frame, read_resource, readable, resource_name, resource_ship, text_view,
};
use crate::message::{
    format_time_sent, read_post, update_post, utc_text, AuthoredMessage, AuthoredMessageView,
    Post, PostView, LAST_PRINTABLE_MILLIS,
};
use crate::updates::{drain, pending};
use json::JsonValue;
use urbit_http_api::{Message, Subscription};
use vstd::prelude::*;
use vstd::string::StringExecFns;

verus! {

/// The author of the post that a frame holds, where it holds one.
pub open spec fn frame_author(frame: Seq<char>) -> Option<Seq<char>> {
    match frame_json(frame) {
        Some(update) => match update_post(update) {
            Some(post) => Some(post.author),
            None => None,
        },
        None => None,
    }
}

/// A chatbot that speaks as the ship `ship_name`, watches the chat
/// `chat_name` of the ship `chat_ship`, and answers with
/// `respond_to_message`.
pub struct Chatbot<F: Fn(AuthoredMessage) -> Option<Message>> {
    /// Receives every message that another ship posts to the chat. Where it
    /// returns `Some(message)`, `message` is posted to the chat in reply.
    respond_to_message: F,
    ship_name: String,
    chat_ship: String,
    chat_name: String,
}

impl<F: Fn(AuthoredMessage) -> Option<Message>> Chatbot<F> {
    /// The function that answers messages.
    pub closed spec fn responder(&self) -> F {
        self.respond_to_message
    }

    /// The chatbot's own ship, without a leading `~`.
    pub closed spec fn identity(&self) -> Seq<char> {
        self.ship_name@
    }

    /// The ship that hosts the chat, with its leading `~`.
    pub closed spec fn target_ship(&self) -> Seq<char> {
        self.chat_ship@
    }

    /// The chat's name.
    pub closed spec fn target_name(&self) -> Seq<char> {
        self.chat_name@
    }

    /// Whether a resource descriptor with this ship and this name is the
    /// chat: both are there, the name is the chat's, and the ship, written
    /// after a `~`, is the chat's ship.
    pub open spec fn is_target(&self, ship: Option<Seq<char>>, name: Option<Seq<char>>) -> bool {
        &&& ship is Some
        &&& name is Some
        &&& name.unwrap() == self.target_name()
        &&& seq!['~'] + ship.unwrap() == self.target_ship()
    }

    /// Why a post is turned away, if it is: the chatbot's own ship wrote
    /// it, or the time it was sent cannot be written out.
    pub open spec fn objection(&self, post: PostView) -> Option<Skip> {
        if post.author == self.identity() {
            Some(Skip::OwnPost)
        } else if post.time_sent > LAST_PRINTABLE_MILLIS {
            Some(Skip::Malformed)
        } else {
            None
        }
    }

    /// The message that an update for the chat gives rise to, or why none.
    pub open spec fn normalized(&self, update: JsonValue) -> Result<AuthoredMessageView, Skip> {
        match update_post(update) {
            None => Err(Skip::Malformed),
            Some(post) => match self.objection(post) {
                Some(skip) => Err(skip),
                None => Ok(
                    AuthoredMessageView {
                        author: post.author,
                        contents: post.contents,
                        time_sent: utc_text(post.time_sent),
                        index: post.index,
                    },
                ),
            },
        }
    }

    /// The message that a frame gives rise to, or why none.
    pub open spec fn verdict(&self, frame: Seq<char>) -> Result<AuthoredMessageView, Skip> {
        match frame_json(frame) {
            None => Err(Skip::Unreadable),
            Some(update) => if self.is_target(resource_ship(update), resource_name(update)) {
                self.normalized(update)
            } else {
                Err(Skip::OtherChat)
            },
        }
    }

    /// Whether the bot's function may be called on every message that
    /// another ship wrote.
    pub open spec fn ready(&self) -> bool {
        forall|message: AuthoredMessage|
            message.author@ != self.identity() ==> call_requires(self.responder(), (message,))
    }

    /// Whether `outcome` is a way for `frame` to end: a frame without a
    /// message is skipped for its reason; a frame with a message ends as the
    /// bot's function answers that message.
    pub open spec fn settles(&self, frame: Seq<char>, outcome: Outcome) -> bool {
        match self.verdict(frame) {
            Err(skip) => outcome == Outcome::Skipped(skip),
            Ok(view) => !(outcome is Skipped) && exists|message: AuthoredMessage|
                message@ == view && #[trigger] call_ensures(
                    self.responder(),
                    (message,),
                    outcome.reply(),
                ),
        }
    }

    /// Whether `outcomes` is a way for a batch of frames to end: there is
    /// one outcome for each frame, and it is a way for that frame to end.
    pub open spec fn ends(&self, frames: Seq<Seq<char>>, outcomes: Seq<Outcome>) -> bool {
        &&& outcomes.len() == frames.len()
        &&& forall|i: int|
            0 <= i < frames.len() ==> self.settles(frames[i], #[trigger] outcomes[i])
    }

    /// Whether `replies` is a way for a batch of frames to end: each frame
    /// ends in some outcome of its own, and the replies are those of the
    /// outcomes, in the order of the frames.
    pub open spec fn answers(&self, frames: Seq<Seq<char>>, replies: Seq<Message>) -> bool {
        exists|outcomes: Seq<Outcome>|
            self.ends(frames, outcomes) && replies == #[trigger] replies_of(outcomes)
    }

    /// Whether `places` tells where in a batch each reply comes from: the
    /// `k`-th reply answers the frame at the `k`-th place, and the places
    /// rise strictly.
    pub open spec fn traces(
        &self,
        frames: Seq<Seq<char>>,
        replies: Seq<Message>,
        places: Seq<int>,
    ) -> bool {
        &&& places.len() == replies.len()
        &&& forall|k: int|
            0 <= k < places.len() ==> 0 <= #[trigger] places[k] < frames.len() && self.settles(
                frames[places[k]],
                Outcome::Replied(replies[k]),
            )
        &&& forall|k: int, l: int|
            0 <= k < l < places.len() ==> #[trigger] places[k] < #[trigger] places[l]
    }

    /// Creates a chatbot for the ship `ship_name` (without `~`) that watches
    /// the chat `chat_name` of `chat_ship` (with `~`).
    pub fn new(respond_to_message: F, ship_name: &str, chat_ship: &str, chat_name: &str) -> (bot:
        Self)
        ensures
            bot.responder() == respond_to_message,
            bot.identity() == ship_name@,
            bot.target_ship() == chat_ship@,
            bot.target_name() == chat_name@,
    {
        Chatbot {
            respond_to_message,
            ship_name: ship_name.to_owned(),
            chat_ship: chat_ship.to_owned(),
            chat_name: chat_name.to_owned(),
        }
    }

    /// The chatbot's own ship, without a leading `~`.
    pub fn ship_name(&self) -> (name: &str)
        ensures
            name@ == self.identity(),
    {
        self.ship_name.as_str()
    }

    /// The ship that hosts the chat, with its leading `~`.
    pub fn chat_ship(&self) -> (ship: &str)
        ensures
            ship@ == self.target_ship(),
    {
        self.chat_ship.as_str()
    }

    /// The chat's name.
    pub fn chat_name(&self) -> (name: &str)
        ensures
            name@ == self.target_name(),
    {
        self.chat_name.as_str()
    }

    /// Decides whether a resource descriptor's ship and name are the chat's.
    pub fn matches_target(&self, ship: Option<&str>, name: Option<&str>) -> (matches: bool)
        ensures
            matches == self.is_target(text_view(ship), text_view(name)),
    {
        match (ship, name) {
            (Some(ship), Some(name)) => {
                let chat_name = name.to_owned();
                let chat_ship = String::from_str("~").concat(ship);
                proof {
                    reveal_strlit("~");
                    assert("~"@ =~= seq!['~']);
                }
                chat_name == self.chat_name && chat_ship == self.chat_ship
            },
            _ => false,
        }
    }

    /// Checks whether an update is for the chat that this chatbot watches.
    pub fn check_resource_json(&self, resource_json: &JsonValue) -> (matches: bool)
        ensures
            matches == self.is_target(resource_ship(*resource_json), resource_name(*resource_json)),
    {
        let (ship, name) = read_resource(resource_json);
        self.matches_target(ship, name)
    }

    /// Decides whether a post is turned away, and why.
    pub fn screen(&self, post: &Post) -> (found: Option<Skip>)
        ensures
            found == self.objection(post@),
    {
        if post.author == self.ship_name {
            Some(Skip::OwnPost)
        } else if post.time_sent > LAST_PRINTABLE_MILLIS {
            Some(Skip::Malformed)
        } else {
            None
        }
    }

    /// Makes a message of an update for the chat. Fails where the update
    /// holds no node that can be read (the text of its nodes holds a run of
    /// digits too long, or the reader reports an error), where the node's
    /// time cannot be written out, and where the chatbot's own ship wrote
    /// the node.
    pub fn normalize(&self, update: &JsonValue) -> (made: Result<AuthoredMessage, Skip>)
        ensures
            match self.normalized(*update) {
                Ok(view) => made is Ok && made.unwrap()@ == view,
                Err(skip) => made == Err::<AuthoredMessage, Skip>(skip),
            },
            made is Ok ==> made.unwrap().author@ != self.identity(),
    {
        match read_post(update) {
            None => Err(Skip::Malformed),
            Some(post) => match self.screen(&post) {
                Some(skip) => Err(skip),
                None => {
                    let time_sent = format_time_sent(post.time_sent);
                    Ok(AuthoredMessage::new(post.author, post.contents, time_sent, post.index))
                },
            },
        }
    }

    /// Reads a frame and makes a message of it. Fails where the frame holds
    /// a run of digits too long to read or is no JSON, where it is for
    /// another chat, and where [`Chatbot::normalize`] fails.
    pub fn classify(&self, frame: &str) -> (made: Result<AuthoredMessage, Skip>)
        ensures
            match self.verdict(frame@) {
                Ok(view) => made is Ok && made.unwrap()@ == view,
                Err(skip) => made == Err::<AuthoredMessage, Skip>(skip),
            },
            made is Ok ==> made.unwrap().author@ != self.identity(),
            made is Ok ==> frame_json(frame@) is Some && self.is_target(
                resource_ship(frame_json(frame@).unwrap()),
                resource_name(frame_json(frame@).unwrap()),
            ),
    {
        match read_frame(frame) {
            None => Err(Skip::Unreadable),
            Some(update) => if self.check_resource_json(&update) {
                self.normalize(&update)
            } else {
                Err(Skip::OtherChat)
            },
        }
    }

    /// Calls the bot's function on a message, once, and hands back what it
    /// returns: no reply, or one.
    pub fn dispatch(&self, message: AuthoredMessage) -> (reply: Option<Message>)
        requires
            call_requires(self.responder(), (message,)),
        ensures
            call_ensures(self.responder(), (message,), reply),
    {
        (self.respond_to_message)(message)
    }

    /// Takes one frame through the whole pipeline.
    pub fn handle_frame(&self, frame: &str) -> (outcome: Outcome)
        requires
            self.ready(),
        ensures
            self.settles(frame@, outcome),
    {
        match self.classify(frame) {
            Err(skip) => Outcome::Skipped(skip),
            Ok(message) => match self.dispatch(message) {
                Some(reply) => Outcome::Replied(reply),
                None => Outcome::Ignored,
            },
        }
    }

    /// Takes a batch of frames through the pipeline, one after the other,
    /// and hands back what became of each. No frame stops the batch.
    pub fn handle_all(&self, frames: &Vec<String>) -> (outcomes: Vec<Outcome>)
        requires
            self.ready(),
        ensures
            self.ends(frames.deep_view(), outcomes@),
    {
        let mut outcomes: Vec<Outcome> = Vec::new();
        let mut at: usize = 0;
        while at < frames.len()
            invariant
                self.ready(),
                at <= frames.len(),
                outcomes@.len() == at,
                forall|i: int| 0 <= i < at ==> self.settles(frames@[i]@, #[trigger] outcomes@[i]),
            decreases frames.len() - at,
        {
            let outcome = self.handle_frame(frames[at].as_str());
            outcomes.push(outcome);
            at += 1;
        }
        proof {
            let texts = frames.deep_view();
            assert forall|i: int| 0 <= i < texts.len() implies self.settles(
                texts[i],
                #[trigger] outcomes@[i],
            ) by {
                assert(texts[i] == frames@[i]@);
            }
        }
        outcomes
    }

    /// Takes a batch of frames through the pipeline, one after the other,
    /// and collects the replies.
    pub fn respond_to_all(&self, frames: &Vec<String>) -> (replies: Vec<Message>)
        requires
            self.ready(),
        ensures
            self.answers(frames.deep_view(), replies@),
    {
        collect_replies(self.handle_all(frames))
    }

    /// One drain cycle, told frame by frame: takes every frame that the
    /// subscription holds through the pipeline, oldest first, and hands back
    /// what became of each once the subscription is empty.
    pub fn poll_outcomes(&self, updates: &mut Subscription) -> (outcomes: Vec<Outcome>)
        requires
            self.ready(),
        ensures
            pending(*final(updates)).len() == 0,
            self.ends(pending(*old(updates)), outcomes@),
    {
        let frames = drain(updates);
        self.handle_all(&frames)
    }

    /// One drain cycle: takes every frame that the subscription holds
    /// through the pipeline, oldest first, and hands back the replies to
    /// send once the subscription is empty.
    pub fn poll(&self, updates: &mut Subscription) -> (replies: Vec<Message>)
        requires
            self.ready(),
        ensures
            pending(*final(updates)).len() == 0,
            self.answers(pending(*old(updates)), replies@),
    {
        collect_replies(self.poll_outcomes(updates))
    }
}

impl<F: Fn(AuthoredMessage) -> Option<Message>> Chatbot<F> {
    /// A frame that cannot be handed to the JSON parser gives no message,
    /// and can only end skipped as unreadable.
    pub proof fn lemma_long_digit_runs_are_unreadable(&self, frame: Seq<char>, outcome: Outcome)
        requires
            !readable(frame),
        ensures
            self.verdict(frame) == Err::<AuthoredMessageView, Skip>(Skip::Unreadable),
            self.settles(frame, outcome) ==> outcome == Outcome::Skipped(Skip::Unreadable),
    {
    }

    /// Self-exclusion: a frame whose post the chatbot's own ship wrote gives
    /// no message, and can only end skipped, the bot's function not called.
    pub proof fn lemma_own_posts_are_left_out(&self, frame: Seq<char>, outcome: Outcome)
        requires
            frame_author(frame) == Some(self.identity()),
        ensures
            self.verdict(frame) is Err,
            self.settles(frame, outcome) ==> outcome is Skipped,
    {
    }

    /// No message that the pipeline makes has the chatbot's own ship for
    /// its author.
    pub proof fn lemma_messages_are_from_others(&self, frame: Seq<char>)
        ensures
            self.verdict(frame) matches Ok(message) ==> message.author != self.identity(),
    {
    }

    /// Resource isolation: a frame whose resource descriptor is not the
    /// chat's gives no message, and can only end skipped as being of
    /// another chat.
    pub proof fn lemma_other_chats_are_left_out(&self, frame: Seq<char>, outcome: Outcome)
        requires
            frame_json(frame) matches Some(update) && !self.is_target(
                resource_ship(update),
                resource_name(update),
            ),
        ensures
            self.verdict(frame) == Err::<AuthoredMessageView, Skip>(Skip::OtherChat),
            self.settles(frame, outcome) ==> outcome == Outcome::Skipped(Skip::OtherChat),
    {
    }

    /// Whether a resource descriptor is the chat's depends on the
    /// descriptor and on the chat alone: two chatbots with the same chat
    /// agree on every descriptor, whatever else sets them apart.
    pub proof fn lemma_matching_rests_on_the_target(
        &self,
        other: &Self,
        ship: Option<Seq<char>>,
        name: Option<Seq<char>>,
    )
        requires
            self.target_ship() == other.target_ship(),
            self.target_name() == other.target_name(),
        ensures
            self.is_target(ship, name) == other.is_target(ship, name),
    {
    }

    /// A frame gives at most one reply, and that is what the bot's function
    /// returned for the frame's message.
    pub proof fn lemma_reply_is_the_callbacks(&self, frame: Seq<char>, outcome: Outcome)
        requires
            self.settles(frame, outcome),
            outcome.reply() is Some,
        ensures
            self.verdict(frame) is Ok,
            exists|message: AuthoredMessage|
                message@ == self.verdict(frame).unwrap() && #[trigger] call_ensures(
                    self.responder(),
                    (message,),
                    outcome.reply(),
                ),
    {
    }

    /// A batch of frames gives at most as many replies as it has frames.
    pub proof fn lemma_no_more_replies_than_frames(
        &self,
        frames: Seq<Seq<char>>,
        replies: Seq<Message>,
    )
        requires
            self.answers(frames, replies),
        ensures
            replies.len() <= frames.len(),
    {
        let outcomes = choose|outcomes: Seq<Outcome>|
            self.ends(frames, outcomes) && replies == #[trigger] replies_of(outcomes);
        lemma_at_most_one_reply_each(outcomes);
    }

    /// Batch order: the replies of a batch stand in the order of the frames
    /// that they answer.
    pub proof fn lemma_replies_follow_the_frames(
        &self,
        frames: Seq<Seq<char>>,
        replies: Seq<Message>,
    )
        requires
            self.answers(frames, replies),
        ensures
            exists|places: Seq<int>| self.traces(frames, replies, places),
    {
        let outcomes = choose|outcomes: Seq<Outcome>|
            self.ends(frames, outcomes) && replies == #[trigger] replies_of(outcomes);
        let places = origins(outcomes);
        lemma_replies_keep_order(outcomes);
        assert forall|k: int| 0 <= k < places.len() implies 0 <= #[trigger] places[k]
            < frames.len() && self.settles(frames[places[k]], Outcome::Replied(replies[k])) by {
            assert(self.settles(frames[places[k]], outcomes[places[k]]));
        }
        assert(self.traces(frames, replies, places));
    }

    /// Fault isolation: a frame that gives no message changes nothing for
    /// the frames around it. With it in the batch, at any place, the batch
    /// can end in exactly the replies in which it can end without it.
    pub proof fn lemma_skipped_frame_changes_nothing(
        &self,
        frames: Seq<Seq<char>>,
        at: int,
        bad: Seq<char>,
        replies: Seq<Message>,
    )
        requires
            0 <= at <= frames.len(),
            self.verdict(bad) is Err,
        ensures
            self.answers(frames.insert(at, bad), replies) <==> self.answers(frames, replies),
    {
        let skip = self.verdict(bad)->Err_0;
        let longer = frames.insert(at, bad);
        if self.answers(frames, replies) {
            let outcomes = choose|outcomes: Seq<Outcome>|
            self.ends(frames, outcomes) && replies == #[trigger] replies_of(outcomes);
            let more = outcomes.insert(at, Outcome::Skipped(skip));
            lemma_skipped_adds_no_reply(outcomes, at, skip);
            assert forall|i: int| 0 <= i < longer.len() implies self.settles(
                longer[i],
                #[trigger] more[i],
            ) by {
                if i < at {
                    assert(more[i] == outcomes[i]);
                } else if i > at {
                    assert(more[i] == outcomes[i - 1]);
                }
            }
            assert(replies == replies_of(more));
            assert(self.answers(longer, replies));
        }
        if self.answers(longer, replies) {
            let more = choose|outcomes: Seq<Outcome>|
                self.ends(longer, outcomes) && replies == #[trigger] replies_of(outcomes);
            let outcomes = more.remove(at);
            assert(self.settles(longer[at], more[at]));
            assert(more =~= outcomes.insert(at, Outcome::Skipped(skip)));
            lemma_skipped_adds_no_reply(outcomes, at, skip);
            assert forall|i: int| 0 <= i < frames.len() implies self.settles(
                frames[i],
                #[trigger] outcomes[i],
            ) by {
                if i < at {
                    assert(self.settles(longer[i], more[i]));
                } else {
                    assert(self.settles(longer[i + 1], more[i + 1]));
                }
            }
            assert(replies == replies_of(outcomes));
            assert(self.answers(frames, replies));
        }
    }
}

} // verus!
