//! The task that supervises reconnection: it waits for a reason to
//! reconnect, paces the attempts, opens the reconnect window, has a new
//! connection made and swapped in, and closes the window again.
//!
//! The supervisor decides; whoever runs it performs each action and reports
//! back with an event. It never gives up: a failed attempt leaves a wake-up
//! behind so that the next round starts at once, paced by the cooldown. Only
//! an abort stops it.

use super::config::WebSocketConfig;
use super::reconnect::{ReconnectState, ReconnectView};
use crate::clock::duration_nanos;
use std::time::Duration;
use vstd::prelude::*;

verus! {

/// Where the supervisor stands in its cycle.
#[derive(Debug, Clone, Copy, PartialEq, Eq, Structural)]
pub enum SupervisorPhase {
    /// Waiting for the refresh timer or a reconnect request.
    Waiting,
    /// Waiting until the cooldown between connection attempts has passed.
    CoolingDown,
    /// The window is open; waiting the settle delay before connecting.
    Settling,
    /// A new physical connection is being made.
    Connecting,
    /// The new connection stands; its sink is being swapped in.
    Swapping,
    /// The sink is swapped; waiting the settle delay before the old
    /// connection is closed.
    Trailing,
    /// The old sink is being closed and the handler told.
    Retiring,
    /// The session was torn down.
    Stopped,
}

/// What the runner reports to the supervisor.
#[derive(Debug, Clone, Copy, PartialEq, Eq, Structural)]
pub enum SupervisorEvent {
    /// The refresh timer ran out, or a wake-up was waiting.
    Woken,
    /// The action that was asked for is done.
    Done,
    /// The new physical connection stands and its bootstrap messages are sent.
    Connected,
    /// The attempt to connect failed.
    ConnectFailed,
    /// The session is being torn down.
    Aborted,
}

/// What the supervisor asks its runner to do next.
#[derive(Debug, Clone, Copy)]
pub enum SupervisorAction {
    /// Wait until a wake-up is left in the shared state or, if `refresh` is
    /// given, until that much time has passed; then report `Woken`.
    Wait { refresh: Option<Duration> },
    /// Wait until this much time has passed since the last connection
    /// attempt; then report `Done`.
    Cooldown(Duration),
    /// Wait this long; then report `Done`.
    Settle(Duration),
    /// Make a new physical connection and send its bootstrap messages; then
    /// report `Connected` or `ConnectFailed`.
    Connect,
    /// Put the new connection's sink in the place of the current one, keeping
    /// the old one aside; then report `Done`.
    Swap,
    /// Close the old sink and tell the handler that the connection closed for
    /// a reconnect; then report `Done`.
    Retire,
    /// The event did not fit the phase: go on with what was being done.
    Ignore,
    /// Stop for good.
    Stop,
}

/// The mathematical content of a [`SupervisorAction`], durations in
/// nanoseconds.
pub ghost enum ActionView {
    Wait { refresh: Option<nat> },
    Cooldown(nat),
    Settle(nat),
    Connect,
    Swap,
    Retire,
    Ignore,
    Stop,
}

impl View for SupervisorAction {
    type V = ActionView;

    open spec fn view(&self) -> ActionView {
        match self {
            SupervisorAction::Wait { refresh } => ActionView::Wait {
                refresh: match refresh {
                    Some(d) => Some(duration_nanos(*d)),
                    None => None,
                },
            },
            SupervisorAction::Cooldown(d) => ActionView::Cooldown(duration_nanos(*d)),
            SupervisorAction::Settle(d) => ActionView::Settle(duration_nanos(*d)),
            SupervisorAction::Connect => ActionView::Connect,
            SupervisorAction::Swap => ActionView::Swap,
            SupervisorAction::Retire => ActionView::Retire,
            SupervisorAction::Ignore => ActionView::Ignore,
            SupervisorAction::Stop => ActionView::Stop,
        }
    }
}

/// The mathematical content of a [`Supervisor`], durations in nanoseconds.
pub ghost struct SupervisorView {
    pub phase: SupervisorPhase,
    /// Time after which a connection is refreshed; zero turns the refresh off.
    pub refresh_after: nat,
    /// Time between connection attempts.
    pub connect_cooldown: nat,
    /// The settle delay.
    pub reconnection_wait: nat,
    /// Whether duplicates are withheld during a reconnect window.
    pub suppress: bool,
}

/// Whether a reconnect window is open in this phase.
pub open spec fn in_window(phase: SupervisorPhase) -> bool {
    phase is Settling || phase is Connecting || phase is Swapping || phase is Trailing
        || phase is Retiring
}

/// The action that belongs to the supervisor's phase.
pub open spec fn action_of(state: SupervisorView) -> ActionView {
    match state.phase {
        SupervisorPhase::Waiting => ActionView::Wait {
            refresh: if state.refresh_after == 0 {
                None
            } else {
                Some(state.refresh_after)
            },
        },
        SupervisorPhase::CoolingDown => ActionView::Cooldown(state.connect_cooldown),
        SupervisorPhase::Settling => ActionView::Settle(state.reconnection_wait),
        SupervisorPhase::Connecting => ActionView::Connect,
        SupervisorPhase::Swapping => ActionView::Swap,
        SupervisorPhase::Trailing => ActionView::Settle(state.reconnection_wait),
        SupervisorPhase::Retiring => ActionView::Retire,
        SupervisorPhase::Stopped => ActionView::Stop,
    }
}

/// The phase that follows `phase` on `event`, or `None` where the event does
/// not fit the phase.
pub open spec fn next_phase(phase: SupervisorPhase, suppress: bool, event: SupervisorEvent) -> Option<
    SupervisorPhase,
> {
    match (phase, event) {
        (SupervisorPhase::Stopped, _) => Some(SupervisorPhase::Stopped),
        (_, SupervisorEvent::Aborted) => Some(SupervisorPhase::Stopped),
        (SupervisorPhase::Waiting, SupervisorEvent::Woken) => Some(SupervisorPhase::CoolingDown),
        (SupervisorPhase::CoolingDown, SupervisorEvent::Done) => Some(
            if suppress {
                SupervisorPhase::Settling
            } else {
                SupervisorPhase::Connecting
            },
        ),
        (SupervisorPhase::Settling, SupervisorEvent::Done) => Some(SupervisorPhase::Connecting),
        (SupervisorPhase::Connecting, SupervisorEvent::Connected) => Some(SupervisorPhase::Swapping),
        (SupervisorPhase::Connecting, SupervisorEvent::ConnectFailed) => Some(SupervisorPhase::Waiting),
        (SupervisorPhase::Swapping, SupervisorEvent::Done) => Some(
            if suppress {
                SupervisorPhase::Trailing
            } else {
                SupervisorPhase::Retiring
            },
        ),
        (SupervisorPhase::Trailing, SupervisorEvent::Done) => Some(SupervisorPhase::Retiring),
        (SupervisorPhase::Retiring, SupervisorEvent::Done) => Some(SupervisorPhase::Waiting),
        _ => None,
    }
}

/// The shared reconnect state after the supervisor has taken `event` in
/// `phase`.
///
/// - Waking up consumes the wake-up.
/// - The end of the cooldown opens a fresh window and drains the wake-up
///   slot.
/// - A failed attempt leaves a wake-up and closes the window.
/// - The retirement of the old connection closes the window.
pub open spec fn shared_after(phase: SupervisorPhase, shared: ReconnectView, event: SupervisorEvent)
    -> ReconnectView {
    match (phase, event) {
        (SupervisorPhase::Stopped, _) => shared,
        (_, SupervisorEvent::Aborted) => shared,
        (SupervisorPhase::Waiting, SupervisorEvent::Woken) => ReconnectView {
            wake_pending: false,
            ..shared
        },
        (SupervisorPhase::CoolingDown, SupervisorEvent::Done) => ReconnectView {
            reconnecting: true,
            wake_pending: false,
            fresh: true,
        },
        (SupervisorPhase::Connecting, SupervisorEvent::ConnectFailed) => ReconnectView {
            reconnecting: false,
            wake_pending: true,
            fresh: false,
        },
        (SupervisorPhase::Retiring, SupervisorEvent::Done) => ReconnectView {
            reconnecting: false,
            fresh: false,
            ..shared
        },
        _ => shared,
    }
}

/// The supervisor after `event`, the shared state after it, and the action
/// that the supervisor asks for.
pub open spec fn supervise_step(state: SupervisorView, shared: ReconnectView, event: SupervisorEvent)
    -> (SupervisorView, ReconnectView, ActionView) {
    match next_phase(state.phase, state.suppress, event) {
        None => (state, shared, ActionView::Ignore),
        Some(phase) => (
            SupervisorView { phase, ..state },
            shared_after(state.phase, shared, event),
            action_of(SupervisorView { phase, ..state }),
        ),
    }
}

/// The reconnect supervisor of one session.
#[derive(Debug)]
pub struct Supervisor {
    phase: SupervisorPhase,
    refresh_after: Duration,
    connect_cooldown: Duration,
    reconnection_wait: Duration,
    suppress: bool,
}

impl View for Supervisor {
    type V = SupervisorView;

    closed spec fn view(&self) -> SupervisorView {
        SupervisorView {
            phase: self.phase,
            refresh_after: duration_nanos(self.refresh_after),
            connect_cooldown: duration_nanos(self.connect_cooldown),
            reconnection_wait: duration_nanos(self.reconnection_wait),
            suppress: self.suppress,
        }
    }
}

impl Supervisor {
    /// A supervisor for a session with this configuration, waiting for its
    /// first reason to reconnect.
    pub fn new(config: &WebSocketConfig) -> (supervisor: Self)
        ensures
            supervisor@ == (SupervisorView {
                phase: SupervisorPhase::Waiting,
                refresh_after: config@.refresh_after,
                connect_cooldown: config@.connect_cooldown,
                reconnection_wait: config@.reconnection_wait,
                suppress: config@.ignore_duplicate_during_reconnection,
            }),
    {
        Supervisor {
            phase: SupervisorPhase::Waiting,
            refresh_after: config.refresh_after,
            connect_cooldown: config.connect_cooldown,
            reconnection_wait: config.reconnection_wait,
            suppress: config.ignore_duplicate_during_reconnection,
        }
    }

    /// The phase that the supervisor is in.
    pub fn phase(&self) -> (phase: SupervisorPhase)
        ensures
            phase == self@.phase,
    {
        self.phase
    }

    /// The action that belongs to the current phase: what the runner is to
    /// be doing now.
    pub fn action(&self) -> (action: SupervisorAction)
        ensures
            action@ == action_of(self@),
    {
        match self.phase {
            SupervisorPhase::Waiting => {
                if self.refresh_after.is_zero() {
                    SupervisorAction::Wait { refresh: None }
                } else {
                    SupervisorAction::Wait { refresh: Some(self.refresh_after) }
                }
            },
            SupervisorPhase::CoolingDown => SupervisorAction::Cooldown(self.connect_cooldown),
            SupervisorPhase::Settling => SupervisorAction::Settle(self.reconnection_wait),
            SupervisorPhase::Connecting => SupervisorAction::Connect,
            SupervisorPhase::Swapping => SupervisorAction::Swap,
            SupervisorPhase::Trailing => SupervisorAction::Settle(self.reconnection_wait),
            SupervisorPhase::Retiring => SupervisorAction::Retire,
            SupervisorPhase::Stopped => SupervisorAction::Stop,
        }
    }

    /// Takes one event and says what is to be done next.
    pub fn step(&mut self, shared: &mut ReconnectState, event: SupervisorEvent) -> (action:
        SupervisorAction)
        ensures
            final(self)@ == supervise_step(old(self)@, old(shared)@, event).0,
            final(shared)@ == supervise_step(old(self)@, old(shared)@, event).1,
            action@ == supervise_step(old(self)@, old(shared)@, event).2,
    {
        match (self.phase, event) {
            (SupervisorPhase::Stopped, _) => {},
            (_, SupervisorEvent::Aborted) => {
                self.phase = SupervisorPhase::Stopped;
            },
            (SupervisorPhase::Waiting, SupervisorEvent::Woken) => {
                shared.take_wake();
                self.phase = SupervisorPhase::CoolingDown;
            },
            (SupervisorPhase::CoolingDown, SupervisorEvent::Done) => {
                shared.begin_reconnect();
                self.phase = if self.suppress {
                    SupervisorPhase::Settling
                } else {
                    SupervisorPhase::Connecting
                };
            },
            (SupervisorPhase::Settling, SupervisorEvent::Done) => {
                self.phase = SupervisorPhase::Connecting;
            },
            (SupervisorPhase::Connecting, SupervisorEvent::Connected) => {
                self.phase = SupervisorPhase::Swapping;
            },
            (SupervisorPhase::Connecting, SupervisorEvent::ConnectFailed) => {
                shared.notify();
                shared.end_reconnect();
                self.phase = SupervisorPhase::Waiting;
            },
            (SupervisorPhase::Swapping, SupervisorEvent::Done) => {
                self.phase = if self.suppress {
                    SupervisorPhase::Trailing
                } else {
                    SupervisorPhase::Retiring
                };
            },
            (SupervisorPhase::Trailing, SupervisorEvent::Done) => {
                self.phase = SupervisorPhase::Retiring;
            },
            (SupervisorPhase::Retiring, SupervisorEvent::Done) => {
                shared.end_reconnect();
                self.phase = SupervisorPhase::Waiting;
            },
            _ => {
                return SupervisorAction::Ignore;
            },
        }
        self.action()
    }
}

/// The reconnect flag is set exactly while the supervisor is between the
/// opening of a window and the retirement of the old connection: if flag and
/// phase agree before an event, they agree after it. Only an abort, after
/// which the shared state means nothing, is left out.
pub proof fn lemma_flag_follows_window(state: SupervisorView, shared: ReconnectView, event: SupervisorEvent)
    requires
        shared.reconnecting == in_window(state.phase),
        !(state.phase is Stopped),
        !(event is Aborted),
    ensures
        supervise_step(state, shared, event).1.reconnecting == in_window(
            supervise_step(state, shared, event).0.phase,
        ),
{
}

/// With the refresh interval at zero the supervisor never sets a timer: it
/// leaves its waiting phase on `Woken` alone, and all it ever waits for
/// there is a wake-up.
pub proof fn lemma_no_refresh_without_interval(
    state: SupervisorView,
    shared: ReconnectView,
    event: SupervisorEvent,
)
    requires
        state.refresh_after == 0,
    ensures
        action_of(state) is Wait ==> action_of(state) == (ActionView::Wait { refresh: None }),
        supervise_step(state, shared, event).2 is Wait ==> supervise_step(state, shared, event).2 == (
            ActionView::Wait { refresh: None }),
        supervise_step(state, shared, event).0.refresh_after == 0,
        state.phase is Waiting && !(event is Woken) && !(event is Aborted) ==> supervise_step(
            state,
            shared,
            event,
        ).0.phase is Waiting,
{
}

/// A failed attempt is never the end: the supervisor goes back to waiting
/// with a wake-up left for itself, so the next round starts at once.
pub proof fn lemma_failure_retries(state: SupervisorView, shared: ReconnectView)
    requires
        state.phase is Connecting,
    ensures
        supervise_step(state, shared, SupervisorEvent::ConnectFailed).0.phase is Waiting,
        supervise_step(state, shared, SupervisorEvent::ConnectFailed).1.wake_pending,
        !supervise_step(state, shared, SupervisorEvent::ConnectFailed).1.reconnecting,
{
}

/// An abort stops the supervisor in whatever phase it is, and a stopped
/// supervisor answers every event with `Stop`.
pub proof fn lemma_abort_stops(
    state: SupervisorView,
    shared: ReconnectView,
    later: SupervisorEvent,
)
    ensures
        supervise_step(state, shared, SupervisorEvent::Aborted).0.phase is Stopped,
        supervise_step(state, shared, SupervisorEvent::Aborted).2 == ActionView::Stop,
        supervise_step(state, shared, SupervisorEvent::Aborted).1 == shared,
        ({
            let stopped = supervise_step(state, shared, SupervisorEvent::Aborted).0;
            supervise_step(stopped, shared, later) == (stopped, shared, ActionView::Stop)
        }),
{
}

} // verus!
