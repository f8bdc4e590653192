//! Configuration of a session, and the interface through which a session
//! talks to its handler.

use super::message::WebSocketMessage;
use crate::clock::duration_nanos;
use std::time::Duration;
use vstd::prelude::*;

verus! {

/// Configuration for [`WebSocketHandler`].
///
/// Should be returned by [`WebSocketHandler::websocket_config()`].
#[derive(Debug)]
#[non_exhaustive]
pub struct WebSocketConfig {
    /// Duration that should elapse between each attempt to start a new connection.
    ///
    /// This matters because the session reconnects on error. If the error
    /// continues to happen, it could spam the server if `connect_cooldown` is too short.
    /// Defaults to 3000ms.
    pub connect_cooldown: Duration,
    /// The session will automatically reconnect when `refresh_after` has elapsed since
    /// the last connection started. If you don't want this feature, set it to zero.
    /// Defaults to zero.
    pub refresh_after: Duration,
    /// Prefix which will be used for connections that started using this `WebSocketConfig`.
    /// Defaults to `""`.
    ///
    /// Example usage: `"wss://example.com"`
    pub url_prefix: String,
    /// During reconnection, the handler might receive two identical messages
    /// even though the server sent only one message. By setting this to `true`, the session
    /// will not hand duplicate messages to the handler. You should set this option to `true`
    /// when messages contain some sort of ID and are distinguishable.
    ///
    /// Note, that the session will **not** check duplicate messages when it is not under
    /// reconnection even if this option is set to `true`.
    pub ignore_duplicate_during_reconnection: bool,
    /// When `ignore_duplicate_during_reconnection` is set to `true`, the session will wait for a
    /// certain amount of time to make sure no message is lost. Defaults to 300ms.
    pub reconnection_wait: Duration,
}

/// The mathematical content of a [`WebSocketConfig`]: durations in
/// nanoseconds, the prefix as a sequence of characters.
pub ghost struct WebSocketConfigView {
    pub connect_cooldown: nat,
    pub refresh_after: nat,
    pub url_prefix: Seq<char>,
    pub ignore_duplicate_during_reconnection: bool,
    pub reconnection_wait: nat,
}

impl View for WebSocketConfig {
    type V = WebSocketConfigView;

    open spec fn view(&self) -> WebSocketConfigView {
        WebSocketConfigView {
            connect_cooldown: duration_nanos(self.connect_cooldown),
            refresh_after: duration_nanos(self.refresh_after),
            url_prefix: self.url_prefix@,
            ignore_duplicate_during_reconnection: self.ignore_duplicate_during_reconnection,
            reconnection_wait: duration_nanos(self.reconnection_wait),
        }
    }
}

/// The configuration that a handler gets when it asks for nothing else: three
/// seconds between connection attempts, no periodic refresh, no prefix, no
/// duplicate suppression, 300 milliseconds of settle delay.
pub open spec fn default_websocket_config() -> WebSocketConfigView {
    WebSocketConfigView {
        connect_cooldown: 3_000_000_000,
        refresh_after: 0,
        url_prefix: Seq::empty(),
        ignore_duplicate_during_reconnection: false,
        reconnection_wait: 300_000_000,
    }
}

impl WebSocketConfig {
    /// Constructs a new `WebSocketConfig` with its fields set to their defaults.
    pub fn new() -> (config: Self)
        ensures
            config@ == default_websocket_config(),
    {
        Self::default()
    }

    /// The address of a connection: the configured prefix followed by `url`.
    pub fn full_url(&self, url: &str) -> (full: String)
        ensures
            full@ == self.url_prefix@ + url@,
    {
        let mut full = self.url_prefix.clone();
        full.append(url);
        full
    }
}

impl Default for WebSocketConfig {
    fn default() -> (config: Self)
        ensures
            config@ == default_websocket_config(),
    {
        Self {
            connect_cooldown: Duration::from_millis(3000),
            refresh_after: Duration::from_millis(0),
            url_prefix: String::new(),
            ignore_duplicate_during_reconnection: false,
            reconnection_wait: Duration::from_millis(300),
        }
    }
}

impl Clone for WebSocketConfig {
    fn clone(&self) -> (copy: Self)
        ensures
            copy@ == self@,
    {
        Self {
            connect_cooldown: self.connect_cooldown,
            refresh_after: self.refresh_after,
            url_prefix: self.url_prefix.clone(),
            ignore_duplicate_during_reconnection: self.ignore_duplicate_during_reconnection,
            reconnection_wait: self.reconnection_wait,
        }
    }
}

/// A `trait` which is used to handle events on a session.
///
/// The type implementing this `trait` is required to be [`Send`] and `'static` because
/// it will be sent between threads.
pub trait WebSocketHandler: Send + 'static {
    /// Returns the configuration of every connection that is started with this handler.
    ///
    /// A handler that does not say otherwise gets the default configuration.
    fn websocket_config(&self) -> (config: WebSocketConfig)
        default_ensures
            config@ == default_websocket_config(),
    {
        WebSocketConfig::default()
    }

    /// Called when a new connection has been started, and returns messages that should be
    /// sent to the server.
    ///
    /// This could be called multiple times because the connection can be reconnected.
    ///
    /// A handler that does not say otherwise sends nothing and stays as it is.
    fn handle_start(&mut self) -> (messages: Vec<WebSocketMessage>) where Self: Sized
        default_ensures
            messages@.len() == 0,
            *final(self) == *old(self),
    {
        Vec::new()
    }

    /// Called when the session received a message, returns messages to be sent to the server.
    fn handle_message(&mut self, message: WebSocketMessage) -> Vec<WebSocketMessage>;

    /// Called when a websocket connection is closed.
    ///
    /// If the parameter `reconnect` is:
    /// - `true`, it means that the connection is being reconnected for some reason.
    /// - `false`, it means that the connection will not be reconnected, because the session
    ///   was dropped.
    #[allow(unused_variables)]
    fn handle_close(&mut self, reconnect: bool) {
    }
}

} // verus!
