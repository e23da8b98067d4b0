//! The bot loop: what the chatbot does next, given what just happened.
//!
//! The loop itself talks to the ship and sleeps, which this library does
//! not. It asks [`Chatbot::step`] after each thing it has done, and does
//! what the answer says.

use crate::chatbot::Chatbot;
use crate::message::AuthoredMessage;
use urbit_http_api::Message;
use vstd::prelude::*;

verus! {

/// The time to wait between two drain cycles, in milliseconds.
pub const POLL_INTERVAL_MILLIS: u64 = 500;

/// The app whose updates the chatbot subscribes to.
pub const UPDATES_APP: &'static str = "graph-store";

/// The path of that app's updates.
pub const UPDATES_PATH: &'static str = "/updates";

/// Where the loop stands. `Draining`, `Publishing` and `Sleeping` are the
/// three parts of a polling cycle.
#[derive(Debug)]
pub enum LoopState {
    /// The channel and the subscription are being set up.
    Connecting,
    /// The subscription stands, and the first drain cycle is under way.
    Subscribed,
    /// A later drain cycle is under way.
    Draining,
    /// One reply is being sent; `outbox` holds those that follow it.
    Publishing { outbox: Vec<Message> },
    /// The loop waits for the next cycle.
    Sleeping,
    /// The loop has ended.
    Failed,
}

/// What just happened.
#[derive(Debug)]
pub enum Event {
    /// The channel was created and the subscription accepted.
    Connected,
    /// The channel could not be created, or the subscription was refused.
    ConnectionFailed,
    /// A drain cycle ended with these replies to send.
    Drained(Vec<Message>),
    /// The channel no longer holds the subscription.
    SubscriptionLost,
    /// A reply was handed to the ship; `true` where the ship took it.
    Sent(bool),
    /// The wait is over.
    Woke,
}

/// What to do next.
#[derive(Debug)]
pub enum Action {
    /// Create a channel and subscribe to [`UPDATES_PATH`] of [`UPDATES_APP`].
    Connect,
    /// Fetch what has arrived and run [`Chatbot::poll`] on the subscription.
    Drain,
    /// Post `message` to the chat `name` of `ship`.
    Send { ship: String, name: String, message: Message },
    /// Wait for `millis` milliseconds.
    Sleep { millis: u64 },
    /// Leave the loop.
    Stop,
}

/// A [`LoopState`] as the contracts speak of it.
pub enum LoopStateView {
    Connecting,
    Subscribed,
    Draining,
    Publishing { outbox: Seq<Message> },
    Sleeping,
    Failed,
}

/// An [`Event`] as the contracts speak of it.
pub enum EventView {
    Connected,
    ConnectionFailed,
    Drained(Seq<Message>),
    SubscriptionLost,
    Sent(bool),
    Woke,
}

/// An [`Action`] as the contracts speak of it.
pub enum ActionView {
    Connect,
    Drain,
    Send { ship: Seq<char>, name: Seq<char>, message: Message },
    Sleep { millis: u64 },
    Stop,
}

impl View for LoopState {
    type V = LoopStateView;

    open spec fn view(&self) -> LoopStateView {
        match self {
            LoopState::Connecting => LoopStateView::Connecting,
            LoopState::Subscribed => LoopStateView::Subscribed,
            LoopState::Draining => LoopStateView::Draining,
            LoopState::Publishing { outbox } => LoopStateView::Publishing { outbox: outbox@ },
            LoopState::Sleeping => LoopStateView::Sleeping,
            LoopState::Failed => LoopStateView::Failed,
        }
    }
}

impl View for Event {
    type V = EventView;

    open spec fn view(&self) -> EventView {
        match self {
            Event::Connected => EventView::Connected,
            Event::ConnectionFailed => EventView::ConnectionFailed,
            Event::Drained(replies) => EventView::Drained(replies@),
            Event::SubscriptionLost => EventView::SubscriptionLost,
            Event::Sent(taken) => EventView::Sent(*taken),
            Event::Woke => EventView::Woke,
        }
    }
}

impl View for Action {
    type V = ActionView;

    open spec fn view(&self) -> ActionView {
        match self {
            Action::Connect => ActionView::Connect,
            Action::Drain => ActionView::Drain,
            Action::Send { ship, name, message } => ActionView::Send {
                ship: ship@,
                name: name@,
                message: *message,
            },
            Action::Sleep { millis } => ActionView::Sleep { millis: *millis },
            Action::Stop => ActionView::Stop,
        }
    }
}

impl LoopStateView {
    /// Whether the loop is in its steady state, in any part of a cycle.
    pub open spec fn is_polling(self) -> bool {
        self is Draining || self is Publishing || self is Sleeping
    }
}

/// Whether `event` is one that the loop waits for in `state`.
pub open spec fn awaits(state: LoopStateView, event: EventView) -> bool {
    match state {
        LoopStateView::Connecting => event is Connected || event is ConnectionFailed,
        LoopStateView::Subscribed => event is Drained,
        LoopStateView::Draining => event is Drained,
        LoopStateView::Publishing { .. } => event is Sent,
        LoopStateView::Sleeping => event is Woke,
        LoopStateView::Failed => false,
    }
}

impl<F: Fn(AuthoredMessage) -> Option<Message>> Chatbot<F> {
    /// The posting of `message` to the chat.
    pub open spec fn sending(&self, message: Message) -> ActionView {
        ActionView::Send { ship: self.target_ship(), name: self.target_name(), message }
    }

    /// How the loop goes on with `queue` still to send: with the first
    /// reply, or, where none is left, with the wait.
    pub open spec fn publish(&self, queue: Seq<Message>) -> (LoopStateView, ActionView) {
        if queue.len() == 0 {
            (LoopStateView::Sleeping, ActionView::Sleep { millis: POLL_INTERVAL_MILLIS })
        } else {
            (LoopStateView::Publishing { outbox: queue.skip(1) }, self.sending(queue[0]))
        }
    }

    /// The loop's transitions. An event that the state does not wait for
    /// ends the loop.
    pub open spec fn next(&self, state: LoopStateView, event: EventView) -> (
        LoopStateView,
        ActionView,
    ) {
        match (state, event) {
            (LoopStateView::Connecting, EventView::Connected) => (
                LoopStateView::Subscribed,
                ActionView::Drain,
            ),
            (LoopStateView::Subscribed, EventView::Drained(replies)) => self.publish(replies),
            (LoopStateView::Draining, EventView::Drained(replies)) => self.publish(replies),
            (LoopStateView::Publishing { outbox }, EventView::Sent(_)) => self.publish(outbox),
            (LoopStateView::Sleeping, EventView::Woke) => (
                LoopStateView::Draining,
                ActionView::Drain,
            ),
            _ => (LoopStateView::Failed, ActionView::Stop),
        }
    }

    /// What the loop does, one thing after each event, from `state` on.
    pub open spec fn run(&self, state: LoopStateView, events: Seq<EventView>) -> Seq<ActionView>
        decreases events.len(),
    {
        if events.len() == 0 {
            Seq::empty()
        } else {
            let (then, action) = self.next(state, events[0]);
            seq![action] + self.run(then, events.skip(1))
        }
    }

    /// Where a run of the loop stands after `events`, from `state` on.
    pub open spec fn state_after(
        &self,
        state: LoopStateView,
        events: Seq<EventView>,
    ) -> LoopStateView
        decreases events.len(),
    {
        if events.len() == 0 {
            state
        } else {
            self.state_after(self.next(state, events[0]).0, events.skip(1))
        }
    }

    /// A send that failed is followed by what follows one that succeeded:
    /// nothing is held back and nothing is sent again.
    pub proof fn lemma_failed_send_blocks_nothing(&self, state: LoopStateView)
        ensures
            self.next(state, EventView::Sent(false)) == self.next(state, EventView::Sent(true)),
    {
    }

    /// With one reply under way and `outbox` to follow, the loop sends the
    /// replies of `outbox` one by one, in their order, whatever becomes of
    /// each send, and then waits.
    pub proof fn lemma_outbox_is_sent_in_order(&self, outbox: Seq<Message>, taken: Seq<bool>)
        requires
            taken.len() == outbox.len() + 1,
        ensures
            self.run(
                LoopStateView::Publishing { outbox },
                taken.map_values(|t: bool| EventView::Sent(t)),
            ) == outbox.map_values(|message: Message| self.sending(message)).push(
                ActionView::Sleep { millis: POLL_INTERVAL_MILLIS },
            ),
            self.state_after(
                LoopStateView::Publishing { outbox },
                taken.map_values(|t: bool| EventView::Sent(t)),
            ) == LoopStateView::Sleeping,
        decreases outbox.len(),
    {
        let events = taken.map_values(|t: bool| EventView::Sent(t));
        let sends = outbox.map_values(|message: Message| self.sending(message));
        let rest = taken.skip(1);
        assert(events.skip(1) =~= rest.map_values(|t: bool| EventView::Sent(t)));
        assert(events[0] == EventView::Sent(taken[0]));
        if outbox.len() == 0 {
            assert(events.skip(1).len() == 0);
            assert(self.run(LoopStateView::Sleeping, events.skip(1)) =~= Seq::empty());
            assert(self.state_after(LoopStateView::Sleeping, events.skip(1))
                == LoopStateView::Sleeping);
            assert(self.run(LoopStateView::Publishing { outbox }, events) =~= sends.push(
                ActionView::Sleep { millis: POLL_INTERVAL_MILLIS },
            ));
        } else {
            self.lemma_outbox_is_sent_in_order(outbox.skip(1), rest);
            let later = outbox.skip(1).map_values(|message: Message| self.sending(message));
            assert(sends =~= seq![self.sending(outbox[0])] + later);
            assert(self.run(LoopStateView::Publishing { outbox }, events) =~= sends.push(
                ActionView::Sleep { millis: POLL_INTERVAL_MILLIS },
            ));
        }
    }

    /// The publisher: after a drain cycle has ended with `replies`, the
    /// loop sends each of them to the chat once, in their order, whatever
    /// becomes of each send, and then waits for the next cycle.
    pub proof fn lemma_replies_are_sent_in_order(&self, replies: Seq<Message>, taken: Seq<bool>)
        requires
            taken.len() == replies.len(),
        ensures
            self.run(
                LoopStateView::Draining,
                seq![EventView::Drained(replies)] + taken.map_values(|t: bool| EventView::Sent(t)),
            ) == replies.map_values(|message: Message| self.sending(message)).push(
                ActionView::Sleep { millis: POLL_INTERVAL_MILLIS },
            ),
            self.state_after(
                LoopStateView::Draining,
                seq![EventView::Drained(replies)] + taken.map_values(|t: bool| EventView::Sent(t)),
            ) == LoopStateView::Sleeping,
    {
        let sent = taken.map_values(|t: bool| EventView::Sent(t));
        let events = seq![EventView::Drained(replies)] + sent;
        let sends = replies.map_values(|message: Message| self.sending(message));
        assert(events.skip(1) =~= sent);
        assert(events[0] == EventView::Drained(replies));
        if replies.len() == 0 {
            assert(self.run(LoopStateView::Sleeping, sent) =~= Seq::empty());
            assert(self.state_after(LoopStateView::Sleeping, sent) == LoopStateView::Sleeping);
            assert(self.run(LoopStateView::Draining, events) =~= sends.push(
                ActionView::Sleep { millis: POLL_INTERVAL_MILLIS },
            ));
        } else {
            self.lemma_outbox_is_sent_in_order(replies.skip(1), taken);
            let later = replies.skip(1).map_values(|message: Message| self.sending(message));
            assert(sends =~= seq![self.sending(replies[0])] + later);
            assert(self.run(LoopStateView::Draining, events) =~= sends.push(
                ActionView::Sleep { millis: POLL_INTERVAL_MILLIS },
            ));
        }
    }

    /// Once the loop is polling, nothing that its state waits for ends it:
    /// a cycle leads to the next.
    pub proof fn lemma_polling_goes_on(&self, state: LoopStateView, event: EventView)
        requires
            state.is_polling() || state is Subscribed,
            awaits(state, event),
        ensures
            self.next(state, event).0.is_polling(),
            !(self.next(state, event).1 is Stop),
    {
    }

    /// Where the loop begins, and what it does first.
    pub fn start(&self) -> (begin: (LoopState, Action))
        ensures
            begin.0@ == LoopStateView::Connecting,
            begin.1@ == ActionView::Connect,
    {
        (LoopState::Connecting, Action::Connect)
    }

    /// Goes on with the replies in `queue`.
    fn publish_next(&self, queue: Vec<Message>) -> (then: (LoopState, Action))
        ensures
            (then.0@, then.1@) == self.publish(queue@),
    {
        let mut queue = queue;
        let ghost whole = queue@;
        if queue.len() == 0 {
            (LoopState::Sleeping, Action::Sleep { millis: POLL_INTERVAL_MILLIS })
        } else {
            let message = queue.remove(0);
            assert(queue@ =~= whole.skip(1));
            let ship = self.chat_ship().to_owned();
            let name = self.chat_name().to_owned();
            (LoopState::Publishing { outbox: queue }, Action::Send { ship, name, message })
        }
    }

    /// Decides what the loop does after `event` has happened in `state`.
    pub fn step(&self, state: LoopState, event: Event) -> (then: (LoopState, Action))
        ensures
            (then.0@, then.1@) == self.next(state@, event@),
    {
        match (state, event) {
            (LoopState::Connecting, Event::Connected) => (LoopState::Subscribed, Action::Drain),
            (LoopState::Subscribed, Event::Drained(replies)) => self.publish_next(replies),
            (LoopState::Draining, Event::Drained(replies)) => self.publish_next(replies),
            (LoopState::Publishing { outbox }, Event::Sent(_)) => self.publish_next(outbox),
            (LoopState::Sleeping, Event::Woke) => (LoopState::Draining, Action::Drain),
            _ => (LoopState::Failed, Action::Stop),
        }
    }
}

} // verus!
