//! One logical, possibly reconnecting connection: the dispatcher, the
//! supervisor, the state they share and the connection data, kept together
//! so that they cannot fall out of step.
//!
//! A session upholds what its parts cannot uphold alone: the reconnect flag
//! is set exactly while the supervisor is between the opening of a window
//! and the retirement of the old connection, and a window is fresh only
//! while it is open.

use super::config::{WebSocketConfig, WebSocketHandler};
use super::dispatch::{
    dispatch_step, keeps_running, Dispatch, DispatchView, Dispatcher, DispatcherView, Fed, Inbound,
    InboundView,
};
use super::message::{message_of_frame, messages_view, FrameView, MessageView, WebSocketMessage};
use super::reconnect::{request_outcome, ReconnectState, ReconnectView};
use super::setup::{
    setup_step, ConnectionInner, ConnectionInnerView, ConnectionSetup, SetupAction, SetupEvent,
    SetupPhase, SetupView,
};
use super::supervisor::{
    action_of, in_window, supervise_step, Supervisor, SupervisorAction, SupervisorEvent,
    SupervisorPhase, SupervisorView,
};
use vstd::prelude::*;

verus! {

/// The mathematical content of a [`Session`].
pub ghost struct SessionView {
    pub dispatcher: DispatcherView,
    pub supervisor: SupervisorView,
    pub shared: ReconnectView,
    pub connection: ConnectionInnerView,
}

/// Whether the parts of a session are in step: unless the supervisor has
/// stopped, the reconnect flag is set exactly while the supervisor has a
/// window open, and only an open window is fresh.
pub open spec fn in_step(session: SessionView) -> bool {
    session.supervisor.phase is Stopped || (session.shared.reconnecting == in_window(
        session.supervisor.phase,
    ) && (session.shared.fresh ==> session.shared.reconnecting))
}

/// The session that starts under `config` at `url`: nothing seen, nothing
/// requested, the supervisor waiting, the first connection to be tagged
/// `false`.
pub open spec fn new_session(config: super::config::WebSocketConfigView, url: Seq<char>) -> SessionView {
    SessionView {
        dispatcher: DispatcherView {
            tally: Map::empty(),
            suppress: config.ignore_duplicate_during_reconnection,
            stopped: false,
        },
        supervisor: SupervisorView {
            phase: SupervisorPhase::Waiting,
            refresh_after: config.refresh_after,
            connect_cooldown: config.connect_cooldown,
            reconnection_wait: config.reconnection_wait,
            suppress: config.ignore_duplicate_during_reconnection,
        },
        shared: ReconnectView { reconnecting: false, wake_pending: false, fresh: false },
        connection: ConnectionInnerView { url: config.url_prefix + url, connection_id: false },
    }
}

/// A session of which someone has asked a reconnect.
pub open spec fn after_request(session: SessionView) -> SessionView {
    SessionView { shared: request_outcome(session.shared).1, ..session }
}

/// A session whose dispatcher has taken an inbound item.
pub open spec fn after_inbound(session: SessionView, item: InboundView) -> SessionView {
    SessionView {
        dispatcher: dispatch_step(session.dispatcher, session.shared, item).0,
        shared: dispatch_step(session.dispatcher, session.shared, item).1,
        ..session
    }
}

/// A session whose supervisor has taken an event.
pub open spec fn after_event(session: SessionView, event: SupervisorEvent) -> SessionView {
    SessionView {
        supervisor: supervise_step(session.supervisor, session.shared, event).0,
        shared: supervise_step(session.supervisor, session.shared, event).1,
        ..session
    }
}

/// One logical connection.
pub struct Session {
    dispatcher: Dispatcher,
    supervisor: Supervisor,
    shared: ReconnectState,
    connection: ConnectionInner,
}

impl View for Session {
    type V = SessionView;

    closed spec fn view(&self) -> SessionView {
        SessionView {
            dispatcher: self.dispatcher@,
            supervisor: self.supervisor@,
            shared: self.shared@,
            connection: self.connection@,
        }
    }
}

impl Session {
    #[verifier::type_invariant]
    spec fn well_formed(self) -> bool {
        in_step(self@)
    }

    /// The session of a handler with this configuration that connects to
    /// `url` behind the configured prefix.
    pub fn new(config: &WebSocketConfig, url: &str) -> (session: Self)
        ensures
            session@ == new_session(config@, url@),
            in_step(session@),
    {
        Session {
            dispatcher: Dispatcher::new(config.ignore_duplicate_during_reconnection),
            supervisor: Supervisor::new(config),
            shared: ReconnectState::new(),
            connection: ConnectionInner::new(config, url),
        }
    }

    /// Takes the session out of `self` and leaves an idle one in its place.
    fn take(&mut self) -> (taken: Session)
        ensures
            taken@ == old(self)@,
            in_step(taken@),
    {
        proof {
            use_type_invariant(&*self);
        }
        let mut taken = Session::new(&WebSocketConfig::new(), "");
        core::mem::swap(self, &mut taken);
        taken
    }

    /// The address that every physical connection of the session connects to.
    pub fn url(&self) -> (url: &str)
        ensures
            url@ == self@.connection.url,
    {
        self.connection.url()
    }

    /// Returns `true` iff the session is undergoing a reconnection process.
    pub fn is_reconnecting(&self) -> (reconnecting: bool)
        ensures
            reconnecting == self@.shared.reconnecting,
            in_step(self@),
    {
        proof {
            use_type_invariant(self);
        }
        self.shared.is_reconnecting()
    }

    /// Whether a wake-up is waiting for the supervisor.
    pub fn is_wake_pending(&self) -> (pending: bool)
        ensures
            pending == self@.shared.wake_pending,
    {
        self.shared.is_wake_pending()
    }

    /// Whether the dispatcher has stopped.
    pub fn is_stopped(&self) -> (stopped: bool)
        ensures
            stopped == self@.dispatcher.stopped,
    {
        self.dispatcher.is_stopped()
    }

    /// The phase that the supervisor is in.
    pub fn phase(&self) -> (phase: SupervisorPhase)
        ensures
            phase == self@.supervisor.phase,
            in_step(self@),
    {
        proof {
            use_type_invariant(self);
        }
        self.supervisor.phase()
    }

    /// Request the session to perform a reconnect.
    ///
    /// Will return `false`, and change nothing, if it is already in a
    /// reconnection process. Otherwise leaves a wake-up for the supervisor
    /// and returns `true`.
    pub fn request_reconnect(&mut self) -> (accepted: bool)
        ensures
            accepted == request_outcome(old(self)@.shared).0,
            final(self)@ == after_request(old(self)@),
            in_step(final(self)@),
    {
        let Session { dispatcher, supervisor, mut shared, connection } = self.take();
        let accepted = shared.request_reconnect();
        *self = Session { dispatcher, supervisor, shared, connection };
        accepted
    }

    /// Decides what is done with one inbound item.
    pub fn dispatch(&mut self, item: Inbound) -> (outcome: Dispatch)
        ensures
            outcome@ == dispatch_step(old(self)@.dispatcher, old(self)@.shared, item@).2,
            final(self)@ == after_inbound(old(self)@, item@),
            in_step(final(self)@),
    {
        let Session { mut dispatcher, supervisor, mut shared, connection } = self.take();
        let outcome = dispatcher.dispatch(&mut shared, item);
        *self = Session { dispatcher, supervisor, shared, connection };
        outcome
    }

    /// Takes one inbound item through the dispatcher and, where the decision
    /// asks for it, through the handler: a delivered message is handed to one
    /// call of `handle_message`, whose answer is what is to be sent; the end
    /// of the session is told by one call of `handle_close`; in every other
    /// case the handler is left alone and there is nothing to send.
    pub fn feed_handler<H: WebSocketHandler>(&mut self, handler: &mut H, item: Inbound) -> (fed: Fed)
        ensures
            final(self)@ == after_inbound(old(self)@, item@),
            in_step(final(self)@),
            fed.running == keeps_running(
                dispatch_step(old(self)@.dispatcher, old(self)@.shared, item@).2,
            ),
            !(dispatch_step(old(self)@.dispatcher, old(self)@.shared, item@).2 is Deliver)
                ==> fed.replies@.len() == 0,
            match dispatch_step(old(self)@.dispatcher, old(self)@.shared, item@).2 {
                DispatchView::Deliver(delivered) => exists|call: &mut H, message: WebSocketMessage|
                    message@ == delivered && mut_ref_current(call) == *old(handler) && mut_ref_future(
                        call,
                    ) == *final(handler) && #[trigger] call_ensures(
                        H::handle_message,
                        (call, message),
                        fed.replies,
                    ),
                DispatchView::Close => exists|call: &mut H|
                    mut_ref_current(call) == *old(handler) && mut_ref_future(call) == *final(handler)
                        && #[trigger] call_ensures(H::handle_close, (call, false), ()),
                _ => *final(handler) == *old(handler),
            },
    {
        let Session { mut dispatcher, supervisor, mut shared, connection } = self.take();
        let fed = dispatcher.feed_handler(&mut shared, handler, item);
        *self = Session { dispatcher, supervisor, shared, connection };
        fed
    }

    /// The action that belongs to the supervisor's phase: what its runner is
    /// to be doing now.
    pub fn action(&self) -> (action: SupervisorAction)
        ensures
            action@ == action_of(self@.supervisor),
    {
        self.supervisor.action()
    }

    /// Hands one event to the supervisor and says what is to be done next.
    pub fn supervise(&mut self, event: SupervisorEvent) -> (action: SupervisorAction)
        ensures
            action@ == supervise_step(old(self)@.supervisor, old(self)@.shared, event).2,
            final(self)@ == after_event(old(self)@, event),
            in_step(final(self)@),
    {
        let Session { dispatcher, mut supervisor, mut shared, connection } = self.take();
        let action = supervisor.step(&mut shared, event);
        *self = Session { dispatcher, supervisor, shared, connection };
        action
    }

    /// Starts the setup of a new physical connection: asks the handler for
    /// the messages that the connection is to begin with.
    ///
    /// The setup holds exactly what one call of `handle_start` returned,
    /// none of it sent yet, and the handler is as that call left it.
    pub fn start_connection<H: WebSocketHandler>(&self, handler: &mut H) -> (setup: ConnectionSetup)
        ensures
            exists|call: &mut H, bootstrap: Vec<WebSocketMessage>|
                mut_ref_current(call) == *old(handler) && mut_ref_future(call) == *final(handler)
                    && #[trigger] call_ensures(H::handle_start, (call,), bootstrap) && setup@ == (
                SetupView {
                    bootstrap: messages_view(bootstrap),
                    sent: 0,
                    phase: SetupPhase::Connecting,
                }),
    {
        self.connection.start_connection(handler)
    }

    /// Hands one event to the setup of a connection and says what is to be
    /// done next.
    pub fn setup_connection(&mut self, setup: &mut ConnectionSetup, event: SetupEvent) -> (action:
        SetupAction)
        ensures
            final(setup)@ == setup_step(old(setup)@, old(self)@.connection, event).0,
            action@ == setup_step(old(setup)@, old(self)@.connection, event).2,
            final(self)@ == (SessionView {
                connection: setup_step(old(setup)@, old(self)@.connection, event).1,
                ..old(self)@
            }),
            in_step(final(self)@),
    {
        let Session { dispatcher, supervisor, shared, mut connection } = self.take();
        let action = setup.step(&mut connection, event);
        *self = Session { dispatcher, supervisor, shared, connection };
        action
    }
}

/// Whatever happens to a session leaves its parts in step: a request, an
/// inbound item, an event of the supervisor.
pub proof fn lemma_session_stays_in_step(session: SessionView, item: InboundView, event: SupervisorEvent)
    requires
        in_step(session),
    ensures
        in_step(after_request(session)),
        in_step(after_inbound(session, item)),
        in_step(after_event(session, event)),
{
}

/// A request is refused, and changes nothing, exactly while the supervisor
/// of a running session has a window open; any other request is accepted
/// and leaves a wake-up for the supervisor.
pub proof fn lemma_request_refused_while_reconnecting(session: SessionView)
    requires
        in_step(session),
        !(session.supervisor.phase is Stopped),
    ensures
        request_outcome(session.shared).0 == !in_window(session.supervisor.phase),
        in_window(session.supervisor.phase) ==> after_request(session) == session,
        !in_window(session.supervisor.phase) ==> after_request(session).shared.wake_pending,
        after_request(session).supervisor == session.supervisor,
        after_request(session).dispatcher == session.dispatcher,
{
}

/// While the supervisor of a running session has no window open, every
/// inbound message is delivered, whatever the mode, and the duplicate
/// filter holds nothing afterwards.
pub proof fn lemma_outside_window_every_message_delivered(
    session: SessionView,
    connection: bool,
    frame: FrameView,
)
    requires
        in_step(session),
        !(session.supervisor.phase is Stopped),
        !in_window(session.supervisor.phase),
        !session.dispatcher.stopped,
        message_of_frame(frame).is_some(),
    ensures
        dispatch_step(
            session.dispatcher,
            session.shared,
            InboundView::Frame { connection, frame },
        ).2 == DispatchView::Deliver(message_of_frame(frame).unwrap()),
        after_inbound(session, InboundView::Frame { connection, frame }).dispatcher.tally == Map::<
            MessageView,
            int,
        >::empty(),
        after_inbound(session, InboundView::Frame { connection, frame }).shared == session.shared,
{
}

/// When the supervisor opens a window, the window is fresh: the first
/// message that arrives in it finds the duplicate filter empty and is
/// delivered.
pub proof fn lemma_opened_window_is_fresh(session: SessionView, connection: bool, frame: FrameView)
    requires
        in_step(session),
        session.supervisor.phase is CoolingDown,
        !session.dispatcher.stopped,
        message_of_frame(frame).is_some(),
    ensures
        after_event(session, SupervisorEvent::Done).shared.reconnecting,
        after_event(session, SupervisorEvent::Done).shared.fresh,
        dispatch_step(
            after_event(session, SupervisorEvent::Done).dispatcher,
            after_event(session, SupervisorEvent::Done).shared,
            InboundView::Frame { connection, frame },
        ).2 == DispatchView::Deliver(message_of_frame(frame).unwrap()),
{
}

} // verus!
