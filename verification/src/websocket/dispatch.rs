//! The task that takes inbound items off the session's one ordered channel
//! and decides what reaches the handler.

use super::config::WebSocketHandler;
use super::dedup::{delivers, tally_after, MessageDeduplicator};
use super::message::{message_of_frame, Frame, FrameView, MessageView, WebSocketMessage};
use super::reconnect::{request_outcome, ReconnectState, ReconnectView};
use vstd::prelude::*;

verus! {

/// One item on the channel that feeds the dispatcher.
#[derive(Debug)]
pub enum Inbound {
    /// A frame that the reader of the connection tagged `connection` received.
    Frame { connection: bool, frame: Frame },
    /// The read side of the connection tagged `connection` failed.
    Failure { connection: bool },
    /// The session is being torn down.
    Shutdown,
}

/// The mathematical content of an [`Inbound`].
pub ghost enum InboundView {
    Frame { connection: bool, frame: FrameView },
    Failure { connection: bool },
    Shutdown,
}

impl View for Inbound {
    type V = InboundView;

    open spec fn view(&self) -> InboundView {
        match self {
            Inbound::Frame { connection, frame } => InboundView::Frame {
                connection: *connection,
                frame: frame@,
            },
            Inbound::Failure { connection } => InboundView::Failure { connection: *connection },
            Inbound::Shutdown => InboundView::Shutdown,
        }
    }
}

/// What the dispatcher decides to do with one inbound item.
#[derive(Debug)]
pub enum Dispatch {
    /// Hand the message to the handler, and send what the handler returns on
    /// the current sink, in order, before the next item is taken.
    Deliver(WebSocketMessage),
    /// Nothing reaches the handler: the frame carried no message, or the
    /// message was withheld as a duplicate.
    Drop,
    /// A read failed and a reconnect was requested. `accepted` is `false`
    /// when one was under way already.
    Reconnect { accepted: bool },
    /// The session ends: tell the handler that the connection closed for
    /// good, then stop.
    Close,
    /// The dispatcher had stopped before this item came.
    Stopped,
}

/// The mathematical content of a [`Dispatch`].
pub ghost enum DispatchView {
    Deliver(MessageView),
    Drop,
    Reconnect { accepted: bool },
    Close,
    Stopped,
}

impl View for Dispatch {
    type V = DispatchView;

    open spec fn view(&self) -> DispatchView {
        match self {
            Dispatch::Deliver(message) => DispatchView::Deliver(message@),
            Dispatch::Drop => DispatchView::Drop,
            Dispatch::Reconnect { accepted } => DispatchView::Reconnect { accepted: *accepted },
            Dispatch::Close => DispatchView::Close,
            Dispatch::Stopped => DispatchView::Stopped,
        }
    }
}

/// The mathematical content of a [`Dispatcher`].
pub ghost struct DispatcherView {
    /// The balances of the messages seen in the current reconnect window.
    pub tally: Map<MessageView, int>,
    /// Whether duplicates are withheld during a reconnect window.
    pub suppress: bool,
    /// Whether the dispatcher has stopped.
    pub stopped: bool,
}

/// The balances that a message meets in a reconnect window: none in a
/// window that has just been opened, else those of the window so far.
pub open spec fn window_tally(state: DispatcherView, shared: ReconnectView) -> Map<MessageView, int> {
    if shared.fresh {
        Map::empty()
    } else {
        state.tally
    }
}

/// The state of the dispatcher after one item, the shared reconnect state
/// after it, and what is done with the item.
///
/// - A stopped dispatcher stays stopped and does nothing.
/// - A shutdown stops the dispatcher.
/// - A read failure asks for a reconnect and delivers nothing.
/// - A frame without a message is dropped.
/// - A message that arrives while no reconnect is under way is delivered,
///   and whatever the duplicate filter held is forgotten.
/// - A message that arrives during a reconnect goes through the duplicate
///   filter. The first one to arrive in a window finds the filter empty,
///   whatever an earlier window left in it.
pub open spec fn dispatch_step(state: DispatcherView, shared: ReconnectView, item: InboundView) -> (
    DispatcherView,
    ReconnectView,
    DispatchView,
) {
    if state.stopped {
        (state, shared, DispatchView::Stopped)
    } else {
        match item {
            InboundView::Shutdown => (
                DispatcherView { stopped: true, ..state },
                shared,
                DispatchView::Close,
            ),
            InboundView::Failure { connection } => (
                state,
                request_outcome(shared).1,
                DispatchView::Reconnect { accepted: request_outcome(shared).0 },
            ),
            InboundView::Frame { connection, frame } => match message_of_frame(frame) {
                None => (state, shared, DispatchView::Drop),
                Some(message) => if shared.reconnecting {
                    (
                        DispatcherView {
                            tally: tally_after(
                                window_tally(state, shared),
                                state.suppress,
                                connection,
                                message,
                            ),
                            ..state
                        },
                        ReconnectView { fresh: false, ..shared },
                        if delivers(window_tally(state, shared), state.suppress, connection, message) {
                            DispatchView::Deliver(message)
                        } else {
                            DispatchView::Drop
                        },
                    )
                } else {
                    (
                        DispatcherView { tally: Map::empty(), ..state },
                        shared,
                        DispatchView::Deliver(message),
                    )
                },
            },
        }
    }
}

/// Whether the dispatcher goes on taking items after this outcome.
pub open spec fn keeps_running(outcome: DispatchView) -> bool {
    !(outcome is Close) && !(outcome is Stopped)
}

/// The dispatcher of a session: the duplicate filter, the mode it runs in,
/// and whether the session has ended.
pub struct Dispatcher {
    filter: MessageDeduplicator,
    suppress: bool,
    stopped: bool,
}

impl View for Dispatcher {
    type V = DispatcherView;

    closed spec fn view(&self) -> DispatcherView {
        DispatcherView { tally: self.filter@, suppress: self.suppress, stopped: self.stopped }
    }
}

/// What came of feeding one item to the handler.
pub struct Fed {
    /// What the handler wants sent on the current sink, in order.
    pub replies: Vec<WebSocketMessage>,
    /// Whether the dispatcher goes on taking items.
    pub running: bool,
}

impl Dispatcher {
    /// A dispatcher that has seen nothing yet. `suppress` says whether
    /// duplicates are withheld during a reconnect window.
    pub fn new(suppress: bool) -> (dispatcher: Self)
        ensures
            dispatcher@ == (DispatcherView { tally: Map::empty(), suppress, stopped: false }),
    {
        Dispatcher { filter: MessageDeduplicator::new(), suppress, stopped: false }
    }

    /// Whether the dispatcher has stopped.
    pub fn is_stopped(&self) -> (stopped: bool)
        ensures
            stopped == self@.stopped,
    {
        self.stopped
    }

    /// The number of distinct messages that the duplicate filter holds.
    pub fn tracked_messages(&self) -> (count: usize)
        ensures
            self@.tally.dom().finite(),
            count == self@.tally.dom().len(),
    {
        self.filter.len()
    }

    /// Decides what is done with one inbound item.
    pub fn dispatch(&mut self, shared: &mut ReconnectState, item: Inbound) -> (outcome: Dispatch)
        ensures
            final(self)@ == dispatch_step(old(self)@, old(shared)@, item@).0,
            final(shared)@ == dispatch_step(old(self)@, old(shared)@, item@).1,
            outcome@ == dispatch_step(old(self)@, old(shared)@, item@).2,
    {
        if self.stopped {
            return Dispatch::Stopped;
        }
        match item {
            Inbound::Shutdown => {
                self.stopped = true;
                Dispatch::Close
            },
            Inbound::Failure { connection: _ } => {
                let accepted = shared.request_reconnect();
                Dispatch::Reconnect { accepted }
            },
            Inbound::Frame { connection, frame } => {
                match WebSocketMessage::from_message(frame) {
                    None => Dispatch::Drop,
                    Some(message) => {
                        if shared.is_reconnecting() {
                            if shared.enter_window() {
                                self.filter.clear();
                            }
                            if self.filter.observe(self.suppress, connection, &message) {
                                Dispatch::Deliver(message)
                            } else {
                                Dispatch::Drop
                            }
                        } else {
                            self.filter.clear();
                            Dispatch::Deliver(message)
                        }
                    },
                }
            },
        }
    }

    /// Takes one inbound item through the dispatcher and, where the decision
    /// asks for it, through the handler: a delivered message is handed to one
    /// call of `handle_message`, whose answer is what is to be sent; the end
    /// of the session is told by one call of `handle_close(false)`; in every
    /// other case the handler is left alone and there is nothing to send.
    pub fn feed_handler<H: WebSocketHandler>(
        &mut self,
        shared: &mut ReconnectState,
        handler: &mut H,
        item: Inbound,
    ) -> (fed: Fed)
        ensures
            final(self)@ == dispatch_step(old(self)@, old(shared)@, item@).0,
            final(shared)@ == dispatch_step(old(self)@, old(shared)@, item@).1,
            fed.running == keeps_running(dispatch_step(old(self)@, old(shared)@, item@).2),
            !(dispatch_step(old(self)@, old(shared)@, item@).2 is Deliver) ==> fed.replies@.len() == 0,
            dispatch_step(old(self)@, old(shared)@, item@).2 is Deliver ==> exists|
                call: &mut H,
                message: WebSocketMessage,
            |
                DispatchView::Deliver(message@) == dispatch_step(old(self)@, old(shared)@, item@).2
                    && mut_ref_current(call) == *old(handler) && mut_ref_future(call) == *final(handler)
                    && #[trigger] call_ensures(H::handle_message, (call, message), fed.replies),
            dispatch_step(old(self)@, old(shared)@, item@).2 is Close ==> exists|call: &mut H|
                mut_ref_current(call) == *old(handler) && mut_ref_future(call) == *final(handler)
                    && #[trigger] call_ensures(H::handle_close, (call, false), ()),
            !(dispatch_step(old(self)@, old(shared)@, item@).2 is Deliver) && !(dispatch_step(
                old(self)@,
                old(shared)@,
                item@,
            ).2 is Close) ==> *final(handler) == *old(handler),
    {
        match self.dispatch(shared, item) {
            Dispatch::Deliver(message) => {
                let ghost given = message;
                let replies = handler.handle_message(message);
                let ghost answered = replies;
                let fed = Fed { replies, running: true };
                proof {
                    assert(DispatchView::Deliver(given@) == dispatch_step(
                        old(self)@,
                        old(shared)@,
                        item@,
                    ).2);
                    assert(fed.replies == answered);
                    assert(exists|call: &mut H|
                        mut_ref_current(call) == *old(handler) && mut_ref_future(call) == *handler
                            && #[trigger] call_ensures(H::handle_message, (call, given), answered));
                }
                fed
            },
            Dispatch::Drop => Fed { replies: Vec::new(), running: true },
            Dispatch::Reconnect { accepted: _ } => Fed { replies: Vec::new(), running: true },
            Dispatch::Close => {
                handler.handle_close(false);
                Fed { replies: Vec::new(), running: false }
            },
            Dispatch::Stopped => Fed { replies: Vec::new(), running: false },
        }
    }
}

/// Outside a reconnect window every message is delivered, whatever the mode
/// and whatever the duplicate filter held, and the filter is left empty.
pub proof fn lemma_outside_window_all_delivered(
    state: DispatcherView,
    shared: ReconnectView,
    connection: bool,
    frame: FrameView,
)
    requires
        !state.stopped,
        !shared.reconnecting,
        message_of_frame(frame).is_some(),
    ensures
        dispatch_step(state, shared, InboundView::Frame { connection, frame }).2 == DispatchView::Deliver(
            message_of_frame(frame).unwrap(),
        ),
        dispatch_step(state, shared, InboundView::Frame { connection, frame }).0.tally == Map::<
            MessageView,
            int,
        >::empty(),
        dispatch_step(state, shared, InboundView::Frame { connection, frame }).1 == shared,
{
}

/// A reconnect window starts afresh: whatever an earlier window left in the
/// duplicate filter, the first message that arrives in a window that has
/// just been opened is delivered, and after it the filter holds that message
/// alone, if it holds anything.
pub proof fn lemma_fresh_window_starts_empty(
    state: DispatcherView,
    shared: ReconnectView,
    connection: bool,
    frame: FrameView,
)
    requires
        !state.stopped,
        shared.reconnecting,
        shared.fresh,
        message_of_frame(frame).is_some(),
    ensures
        dispatch_step(state, shared, InboundView::Frame { connection, frame }).2 == DispatchView::Deliver(
            message_of_frame(frame).unwrap(),
        ),
        dispatch_step(state, shared, InboundView::Frame { connection, frame }).0.tally == tally_after(
            Map::empty(),
            state.suppress,
            connection,
            message_of_frame(frame).unwrap(),
        ),
        !dispatch_step(state, shared, InboundView::Frame { connection, frame }).1.fresh,
        dispatch_step(state, shared, InboundView::Frame { connection, frame }).1.reconnecting,
{
}

/// Once the session is torn down nothing is delivered any more: the shutdown
/// stops the dispatcher, and a stopped dispatcher answers every later item
/// with `Stopped`, changing nothing.
pub proof fn lemma_nothing_delivered_after_shutdown(
    state: DispatcherView,
    shared: ReconnectView,
    later: InboundView,
)
    ensures
        dispatch_step(state, shared, InboundView::Shutdown).0.stopped,
        !(dispatch_step(state, shared, InboundView::Shutdown).2 is Deliver),
        dispatch_step(state, shared, InboundView::Shutdown).1 == shared,
        ({
            let stopped = dispatch_step(state, shared, InboundView::Shutdown).0;
            dispatch_step(stopped, shared, later) == (stopped, shared, DispatchView::Stopped)
        }),
{
}

/// A read failure never delivers anything. It opens no reconnect window by
/// itself: it leaves a wake-up for the supervisor unless a reconnect is
/// under way already.
pub proof fn lemma_failure_requests_reconnect(state: DispatcherView, shared: ReconnectView, connection: bool)
    requires
        !state.stopped,
    ensures
        dispatch_step(state, shared, InboundView::Failure { connection }).0 == state,
        dispatch_step(state, shared, InboundView::Failure { connection }).2 == (DispatchView::Reconnect {
            accepted: !shared.reconnecting,
        }),
        dispatch_step(state, shared, InboundView::Failure { connection }).1.reconnecting
            == shared.reconnecting,
        !shared.reconnecting ==> dispatch_step(
            state,
            shared,
            InboundView::Failure { connection },
        ).1.wake_pending,
{
}

} // verus!
