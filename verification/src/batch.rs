//! The outcome of a frame, and the replies of a batch of frames.

use urbit_http_api::Message;
use vstd::prelude::*;

verus! {

/// Why a frame is passed over without a word to the bot's function.
#[derive(Clone, Copy, Debug, PartialEq, Eq, Structural)]
pub enum Skip {
    /// The frame is no JSON document, or holds a run of digits too long to
    /// read.
    Unreadable,
    /// The frame's resource descriptor names another chat, or none.
    OtherChat,
    /// The frame holds no node that a message can be made of: none that can
    /// be read, or one sent at a time that cannot be written out.
    Malformed,
    /// The chatbot's own ship wrote the message.
    OwnPost,
}

/// What became of one frame.
#[derive(Debug)]
pub enum Outcome {
    /// The frame was passed over; the bot's function was not called.
    Skipped(Skip),
    /// The bot's function was called and chose not to reply.
    Ignored,
    /// The bot's function was called and gave this reply.
    Replied(Message),
}

impl Outcome {
    /// The reply that an outcome holds, if it holds one.
    pub open spec fn reply(self) -> Option<Message> {
        match self {
            Outcome::Replied(message) => Some(message),
            _ => None,
        }
    }
}

/// The replies among the outcomes of a batch, in the order of the batch.
pub open spec fn replies_of(outcomes: Seq<Outcome>) -> Seq<Message>
    decreases outcomes.len(),
{
    if outcomes.len() == 0 {
        Seq::empty()
    } else {
        let earlier = replies_of(outcomes.drop_last());
        match outcomes.last() {
            Outcome::Replied(message) => earlier.push(message),
            _ => earlier,
        }
    }
}

/// Takes the replies out of the outcomes of a batch, in the order of the
/// batch.
pub fn collect_replies(outcomes: Vec<Outcome>) -> (replies: Vec<Message>)
    ensures
        replies@ == replies_of(outcomes@),
{
    let mut replies: Vec<Message> = Vec::new();
    for outcome in it: outcomes
        invariant
            it.seq() == outcomes@,
            replies@ == replies_of(outcomes@.take(it.index() as int)),
    {
        proof {
            let seen = outcomes@.take(it.index() + 1);
            assert(seen.drop_last() =~= outcomes@.take(it.index() as int));
            assert(seen.last() == outcome);
        }
        match outcome {
            Outcome::Replied(reply) => {
                replies.push(reply);
            },
            _ => {},
        }
    }
    assert(outcomes@.take(outcomes@.len() as int) =~= outcomes@);
    replies
}

/// The places in a batch of the outcomes that hold a reply, in rising order:
/// the `k`-th reply of the batch comes of the frame at the `k`-th place.
pub open spec fn origins(outcomes: Seq<Outcome>) -> Seq<int>
    decreases outcomes.len(),
{
    if outcomes.len() == 0 {
        Seq::empty()
    } else {
        let earlier = origins(outcomes.drop_last());
        if outcomes.last() is Replied {
            earlier.push(outcomes.len() - 1)
        } else {
            earlier
        }
    }
}

/// A batch has at most as many replies as frames: no frame gives more than
/// one reply.
pub proof fn lemma_at_most_one_reply_each(outcomes: Seq<Outcome>)
    ensures
        replies_of(outcomes).len() <= outcomes.len(),
    decreases outcomes.len(),
{
    if outcomes.len() > 0 {
        lemma_at_most_one_reply_each(outcomes.drop_last());
    }
}

/// The replies of a batch keep the order of the frames that they answer:
/// each reply is that of the frame at its place of origin, the places of
/// origin rise strictly, and every frame that was replied to is among them.
pub proof fn lemma_replies_keep_order(outcomes: Seq<Outcome>)
    ensures
        origins(outcomes).len() == replies_of(outcomes).len(),
        forall|k: int|
            0 <= k < replies_of(outcomes).len() ==> {
                &&& 0 <= #[trigger] origins(outcomes)[k] < outcomes.len()
                &&& outcomes[origins(outcomes)[k]] == Outcome::Replied(replies_of(outcomes)[k])
            },
        forall|k: int, l: int|
            0 <= k < l < origins(outcomes).len() ==> #[trigger] origins(outcomes)[k]
                < #[trigger] origins(outcomes)[l],
        forall|i: int|
            0 <= i < outcomes.len() && #[trigger] outcomes[i] is Replied ==> origins(
                outcomes,
            ).contains(i),
    decreases outcomes.len(),
{
    if outcomes.len() > 0 {
        let before = outcomes.drop_last();
        lemma_replies_keep_order(before);
        let places = origins(outcomes);
        assert forall|i: int|
            0 <= i < outcomes.len() && #[trigger] outcomes[i] is Replied implies places.contains(
            i,
        ) by {
            if i < before.len() {
                assert(before[i] is Replied);
                let k = choose|k: int| 0 <= k < origins(before).len() && origins(before)[k] == i;
                assert(places[k] == i);
            } else {
                assert(places[places.len() - 1] == i);
            }
        }
    }
}

/// Putting a skipped frame into a batch leaves its replies as they are.
pub proof fn lemma_skipped_adds_no_reply(outcomes: Seq<Outcome>, at: int, skip: Skip)
    requires
        0 <= at <= outcomes.len(),
    ensures
        replies_of(outcomes.insert(at, Outcome::Skipped(skip))) == replies_of(outcomes),
    decreases outcomes.len(),
{
    let longer = outcomes.insert(at, Outcome::Skipped(skip));
    if at == outcomes.len() {
        assert(longer.drop_last() =~= outcomes);
    } else {
        assert(longer.drop_last() =~= outcomes.drop_last().insert(at, Outcome::Skipped(skip)));
        assert(longer.last() == outcomes.last());
        lemma_skipped_adds_no_reply(outcomes.drop_last(), at, skip);
    }
}

} // verus!
