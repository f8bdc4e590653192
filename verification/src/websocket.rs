//! The decisions of a reconnecting WebSocket session.

pub mod config;
pub mod dedup;
pub mod dispatch;
pub mod message;
pub mod reconnect;
pub mod session;
pub mod setup;
pub mod supervisor;

pub use config::{WebSocketConfig, WebSocketConfigView, WebSocketHandler};
pub use dedup::MessageDeduplicator;
pub use dispatch::{Dispatch, DispatchView, Dispatcher, DispatcherView, Fed, Inbound, InboundView};
pub use message::{messages_view, Frame, FrameView, MessageView, WebSocketMessage};
pub use reconnect::{ReconnectState, ReconnectView};
pub use session::{Session, SessionView};
pub use setup::{
    ConnectionInner, ConnectionInnerView, ConnectionSetup, SetupAction, SetupActionView, SetupEvent,
    SetupPhase, SetupView,
};
pub use supervisor::{
    ActionView, Supervisor, SupervisorAction, SupervisorEvent, SupervisorPhase, SupervisorView,
};
