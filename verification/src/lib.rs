//! A client core for exchange APIs: a bounded-retry HTTP request pipeline and
//! a reconnecting WebSocket session, both driven by caller-supplied handlers,
//! and the handlers of a few exchanges.
//!
//! The library decides and computes; it neither sends nor waits. Whoever
//! runs it performs what it asks for and reports back:
//!
//! - [`http`] holds the configuration of a request and the loop that retries
//!   it when the transport fails.
//! - [`websocket`] holds the parts of a session: the duplicate filter, the
//!   dispatcher of inbound messages, the supervisor of reconnection, and the
//!   setup of one physical connection.
//! - [`exchanges`] holds, for each exchange, its addresses and options and the
//!   way it authenticates a request, reads a response and answers a message.
//! - [`request`], [`query`], [`signing`], [`json`], [`text`], [`clock`] and
//!   [`random`] hold what the exchanges share.
//! - [`traits`] holds the traits by which an exchange plugs into a client.

pub mod clock;
pub mod exchanges;
pub mod http;
pub mod json;
pub mod query;
pub mod random;
pub mod request;
pub mod signing;
pub mod text;
pub mod traits;
pub mod websocket;
