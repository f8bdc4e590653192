//! Bringing up one physical connection: once the transport stands, the
//! handler's bootstrap messages go out in order, and only then is the
//! connection given its tag and its reader started.

use super::config::{WebSocketConfig, WebSocketHandler};
use super::message::{messages_view, MessageView, WebSocketMessage};
use vstd::prelude::*;

verus! {

/// What all physical connections of one session have in common: the address
/// they connect to and the tag that the next connection will carry.
#[derive(Debug)]
pub struct ConnectionInner {
    url: String,
    connection_id: bool,
}

/// The mathematical content of a [`ConnectionInner`].
pub ghost struct ConnectionInnerView {
    pub url: Seq<char>,
    pub connection_id: bool,
}

impl View for ConnectionInner {
    type V = ConnectionInnerView;

    closed spec fn view(&self) -> ConnectionInnerView {
        ConnectionInnerView { url: self.url@, connection_id: self.connection_id }
    }
}

impl ConnectionInner {
    /// The connection data of a session that connects to `url` behind the
    /// configured prefix. Its first connection will carry the tag `false`.
    pub fn new(config: &WebSocketConfig, url: &str) -> (inner: Self)
        ensures
            inner@ == (ConnectionInnerView { url: config@.url_prefix + url@, connection_id: false }),
    {
        ConnectionInner { url: config.full_url(url), connection_id: false }
    }

    /// The address that every physical connection of the session connects to.
    pub fn url(&self) -> (url: &str)
        ensures
            url@ == self@.url,
    {
        self.url.as_str()
    }

    /// The tag that the next physical connection will carry.
    pub fn connection_id(&self) -> (id: bool)
        ensures
            id == self@.connection_id,
    {
        self.connection_id
    }

    /// Hands out the tag of a connection that has just become ready and
    /// flips it for the one that will supersede it.
    pub fn next_connection_id(&mut self) -> (id: bool)
        ensures
            id == old(self)@.connection_id,
            final(self)@ == (ConnectionInnerView { connection_id: !id, ..old(self)@ }),
    {
        let id = self.connection_id;
        self.connection_id = !id;
        id
    }

    /// Starts the setup of a new physical connection: asks the handler for
    /// the messages that the connection is to begin with.
    ///
    /// The setup holds exactly what one call of `handle_start` returned,
    /// none of it sent yet, and the handler is as that call left it.
    pub fn start_connection<H: WebSocketHandler>(&self, handler: &mut H) -> (setup: ConnectionSetup)
        ensures
            exists|call: &mut H, bootstrap: Vec<WebSocketMessage>|
                mut_ref_current(call) == *old(handler) && mut_ref_future(call) == *final(handler)
                    && #[trigger] call_ensures(H::handle_start, (call,), bootstrap) && setup@ == (
                SetupView {
                    bootstrap: messages_view(bootstrap),
                    sent: 0,
                    phase: SetupPhase::Connecting,
                }),
    {
        ConnectionSetup::new(handler.handle_start())
    }
}

/// How far the setup of a connection has come.
#[derive(Debug, Clone, Copy, PartialEq, Eq, Structural)]
pub enum SetupPhase {
    /// The transport is being made.
    Connecting,
    /// A bootstrap message is on its way.
    Sending,
    /// All bootstrap messages are sent; the reader may start.
    Ready,
    /// A bootstrap message could not be sent.
    Failed,
}

/// What the runner reports to the setup.
#[derive(Debug, Clone, Copy, PartialEq, Eq, Structural)]
pub enum SetupEvent {
    /// The transport stands.
    Connected,
    /// The message that was asked for is sent.
    Sent,
    /// The message that was asked for could not be sent.
    SendFailed,
}

/// What the setup asks its runner to do next.
#[derive(Debug)]
pub enum SetupAction {
    /// Send this message on the new connection; then report `Sent` or
    /// `SendFailed`.
    Send(WebSocketMessage),
    /// Start the reader of the new connection; it marks every frame with
    /// this tag.
    Ready { connection: bool },
    /// Give the connection up.
    Fail,
    /// The event did not fit the phase: go on with what was being done.
    Ignore,
}

/// The mathematical content of a [`SetupAction`].
pub ghost enum SetupActionView {
    Send(MessageView),
    Ready { connection: bool },
    Fail,
    Ignore,
}

impl View for SetupAction {
    type V = SetupActionView;

    open spec fn view(&self) -> SetupActionView {
        match self {
            SetupAction::Send(message) => SetupActionView::Send(message@),
            SetupAction::Ready { connection } => SetupActionView::Ready { connection: *connection },
            SetupAction::Fail => SetupActionView::Fail,
            SetupAction::Ignore => SetupActionView::Ignore,
        }
    }
}

/// The mathematical content of a [`ConnectionSetup`].
pub ghost struct SetupView {
    /// The handler's bootstrap messages, in the order in which they go out.
    pub bootstrap: Seq<MessageView>,
    /// How many of them are sent.
    pub sent: nat,
    pub phase: SetupPhase,
}

/// A setup is sound when it has sent no more than there is to send, and has
/// something left to send while it is sending.
pub open spec fn setup_sound(state: SetupView) -> bool {
    &&& state.sent <= state.bootstrap.len()
    &&& state.phase is Sending ==> state.sent < state.bootstrap.len()
}

/// What follows once `sent` bootstrap messages are out: the next message,
/// or readiness when none is left.
pub open spec fn setup_proceed(state: SetupView, sent: nat, inner: ConnectionInnerView) -> (
    SetupView,
    ConnectionInnerView,
    SetupActionView,
) {
    if sent < state.bootstrap.len() {
        (
            SetupView { sent, phase: SetupPhase::Sending, ..state },
            inner,
            SetupActionView::Send(state.bootstrap[sent as int]),
        )
    } else {
        (
            SetupView { sent, phase: SetupPhase::Ready, ..state },
            ConnectionInnerView { connection_id: !inner.connection_id, ..inner },
            SetupActionView::Ready { connection: inner.connection_id },
        )
    }
}

/// The setup after `event`, the session's connection data after it, and the
/// action that the setup asks for.
pub open spec fn setup_step(state: SetupView, inner: ConnectionInnerView, event: SetupEvent) -> (
    SetupView,
    ConnectionInnerView,
    SetupActionView,
) {
    match (state.phase, event) {
        (SetupPhase::Connecting, SetupEvent::Connected) => setup_proceed(state, 0, inner),
        (SetupPhase::Sending, SetupEvent::Sent) => setup_proceed(state, state.sent + 1, inner),
        (SetupPhase::Sending, SetupEvent::SendFailed) => (
            SetupView { phase: SetupPhase::Failed, ..state },
            inner,
            SetupActionView::Fail,
        ),
        _ => (state, inner, SetupActionView::Ignore),
    }
}

/// The setup of one physical connection.
pub struct ConnectionSetup {
    bootstrap: Vec<WebSocketMessage>,
    sent: usize,
    phase: SetupPhase,
}

impl View for ConnectionSetup {
    type V = SetupView;

    closed spec fn view(&self) -> SetupView {
        SetupView {
            bootstrap: messages_view(self.bootstrap),
            sent: self.sent as nat,
            phase: self.phase,
        }
    }
}

impl ConnectionSetup {
    #[verifier::type_invariant]
    spec fn well_formed(self) -> bool {
        setup_sound(self@)
    }

    /// The setup of a connection that is to send `bootstrap` before it is
    /// ready.
    pub fn new(bootstrap: Vec<WebSocketMessage>) -> (setup: Self)
        ensures
            setup@ == (SetupView {
                bootstrap: messages_view(bootstrap),
                sent: 0,
                phase: SetupPhase::Connecting,
            }),
    {
        ConnectionSetup { bootstrap, sent: 0, phase: SetupPhase::Connecting }
    }

    /// How far the setup has come.
    pub fn phase(&self) -> (phase: SetupPhase)
        ensures
            phase == self@.phase,
    {
        self.phase
    }

    /// How many bootstrap messages are sent.
    pub fn sent(&self) -> (sent: usize)
        ensures
            sent == self@.sent,
            setup_sound(self@),
    {
        proof {
            use_type_invariant(self);
        }
        self.sent
    }

    /// Takes one event and says what is to be done next.
    pub fn step(&mut self, inner: &mut ConnectionInner, event: SetupEvent) -> (action: SetupAction)
        ensures
            final(self)@ == setup_step(old(self)@, old(inner)@, event).0,
            final(inner)@ == setup_step(old(self)@, old(inner)@, event).1,
            action@ == setup_step(old(self)@, old(inner)@, event).2,
    {
        proof {
            use_type_invariant(&*self);
            assert(self@.bootstrap.len() == self.bootstrap@.len());
        }
        let count = self.bootstrap.len();
        let sent: usize = match (self.phase, event) {
            (SetupPhase::Connecting, SetupEvent::Connected) => 0,
            (SetupPhase::Sending, SetupEvent::Sent) => self.sent + 1,
            (SetupPhase::Sending, SetupEvent::SendFailed) => {
                self.phase = SetupPhase::Failed;
                return SetupAction::Fail;
            },
            _ => {
                return SetupAction::Ignore;
            },
        };
        if sent < count {
            let message = self.bootstrap[sent].clone();
            self.sent = sent;
            self.phase = SetupPhase::Sending;
            SetupAction::Send(message)
        } else {
            self.phase = SetupPhase::Ready;
            self.sent = sent;
            SetupAction::Ready { connection: inner.next_connection_id() }
        }
    }
}

/// A step keeps a sound setup sound.
pub proof fn lemma_setup_stays_sound(state: SetupView, inner: ConnectionInnerView, event: SetupEvent)
    requires
        setup_sound(state),
    ensures
        setup_sound(setup_step(state, inner, event).0),
{
}

/// The reader of a connection starts only when every bootstrap message is
/// sent, so no inbound message of that connection is dispatched before: a
/// step that answers `Ready` leaves nothing unsent, and a step that answers
/// `Send` asks for the first message that is not sent yet.
pub proof fn lemma_bootstrap_before_ready(state: SetupView, inner: ConnectionInnerView, event: SetupEvent)
    requires
        setup_sound(state),
    ensures
        setup_step(state, inner, event).2 is Ready ==> setup_step(state, inner, event).0.sent
            == state.bootstrap.len(),
        setup_step(state, inner, event).2 is Send ==> setup_step(state, inner, event).0.sent
            < state.bootstrap.len() && setup_step(state, inner, event).2 == SetupActionView::Send(
            state.bootstrap[setup_step(state, inner, event).0.sent as int],
        ),
        setup_step(state, inner, event).0.bootstrap == state.bootstrap,
{
}

/// Each connection that becomes ready carries the tag that the one before
/// it did not: readiness hands out the current tag and flips it, and no
/// other step touches it.
pub proof fn lemma_tags_alternate(state: SetupView, inner: ConnectionInnerView, event: SetupEvent)
    ensures
        setup_step(state, inner, event).2 is Ready ==> setup_step(state, inner, event).2 == (
            SetupActionView::Ready { connection: inner.connection_id })
            && setup_step(state, inner, event).1.connection_id == !inner.connection_id,
        !(setup_step(state, inner, event).2 is Ready) ==> setup_step(state, inner, event).1 == inner,
        setup_step(state, inner, event).1.url == inner.url,
{
}

} // verus!
