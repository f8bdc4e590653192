//! The state that a session shares between the task that dispatches inbound
//! messages and the task that supervises reconnection.

use vstd::prelude::*;

verus! {

/// The mathematical content of a [`ReconnectState`].
pub ghost struct ReconnectView {
    /// Whether a reconnect window is open.
    pub reconnecting: bool,
    /// Whether a wake-up is waiting for the supervisor. The slot holds one
    /// wake-up at most.
    pub wake_pending: bool,
    /// Whether a reconnect window was opened that the dispatcher has not
    /// entered yet.
    pub fresh: bool,
}

/// The state by which a reconnect is requested and observed: a flag that is
/// set while a reconnect is under way, a single-slot wake-up for the
/// supervisor, and a mark by which the dispatcher tells a window that has
/// just been opened from one that it is in already.
///
/// Whoever shares one between tasks guards it with a lock or an equivalent
/// primitive, and wakes the supervisor whenever
/// [`request_reconnect`](ReconnectState::request_reconnect) returns `true`.
#[derive(Debug)]
pub struct ReconnectState {
    reconnecting: bool,
    wake_pending: bool,
    fresh: bool,
}

impl View for ReconnectState {
    type V = ReconnectView;

    closed spec fn view(&self) -> ReconnectView {
        ReconnectView {
            reconnecting: self.reconnecting,
            wake_pending: self.wake_pending,
            fresh: self.fresh,
        }
    }
}

/// A request made while a reconnect is under way is refused and changes
/// nothing; any other request is accepted and leaves a wake-up waiting.
pub open spec fn request_outcome(before: ReconnectView) -> (bool, ReconnectView) {
    if before.reconnecting {
        (false, before)
    } else {
        (true, ReconnectView { wake_pending: true, ..before })
    }
}

impl ReconnectState {
    /// The state of a session that has just started: no reconnect under way,
    /// no wake-up waiting.
    pub fn new() -> (state: Self)
        ensures
            state@ == (ReconnectView { reconnecting: false, wake_pending: false, fresh: false }),
    {
        ReconnectState { reconnecting: false, wake_pending: false, fresh: false }
    }

    /// Returns `true` iff the session is undergoing a reconnection process.
    pub fn is_reconnecting(&self) -> (reconnecting: bool)
        ensures
            reconnecting == self@.reconnecting,
    {
        self.reconnecting
    }

    /// Whether a wake-up is waiting for the supervisor.
    pub fn is_wake_pending(&self) -> (pending: bool)
        ensures
            pending == self@.wake_pending,
    {
        self.wake_pending
    }

    /// Request the session to perform a reconnect.
    ///
    /// Will return `false`, and change nothing, if it is already in a
    /// reconnection process. Otherwise leaves a wake-up for the supervisor
    /// and returns `true`.
    pub fn request_reconnect(&mut self) -> (accepted: bool)
        ensures
            accepted == request_outcome(old(self)@).0,
            final(self)@ == request_outcome(old(self)@).1,
    {
        if self.is_reconnecting() {
            false
        } else {
            self.wake_pending = true;
            true
        }
    }

    /// Leaves a wake-up for the supervisor, whether or not a reconnect is
    /// under way. The slot holds one wake-up: a second one is absorbed.
    pub fn notify(&mut self)
        ensures
            final(self)@ == (ReconnectView { wake_pending: true, ..old(self)@ }),
    {
        self.wake_pending = true;
    }

    /// Takes the waiting wake-up, if there is one.
    pub fn take_wake(&mut self) -> (woken: bool)
        ensures
            woken == old(self)@.wake_pending,
            final(self)@ == (ReconnectView { wake_pending: false, ..old(self)@ }),
    {
        let woken = self.wake_pending;
        self.wake_pending = false;
        woken
    }

    /// Opens a reconnect window: sets the flag, marks the window as fresh,
    /// and drains the wake-up slot, so that a request made while the
    /// supervisor was getting ready causes no second cycle.
    pub fn begin_reconnect(&mut self)
        ensures
            final(self)@ == (ReconnectView { reconnecting: true, wake_pending: false, fresh: true }),
    {
        self.reconnecting = true;
        self.wake_pending = false;
        self.fresh = true;
    }

    /// Closes the reconnect window. A wake-up that is waiting stays.
    pub fn end_reconnect(&mut self)
        ensures
            final(self)@ == (ReconnectView { reconnecting: false, fresh: false, ..old(self)@ }),
    {
        self.reconnecting = false;
        self.fresh = false;
    }

    /// Whether a reconnect window was opened that the dispatcher has not
    /// entered yet.
    pub fn is_window_fresh(&self) -> (fresh: bool)
        ensures
            fresh == self@.fresh,
    {
        self.fresh
    }

    /// Enters the reconnect window on behalf of the dispatcher, and says
    /// whether it was fresh until now.
    pub fn enter_window(&mut self) -> (fresh: bool)
        ensures
            fresh == old(self)@.fresh,
            final(self)@ == (ReconnectView { fresh: false, ..old(self)@ }),
    {
        let fresh = self.fresh;
        self.fresh = false;
        fresh
    }
}

} // verus!
