//! State-and-notification core of a desktop media player: reactive cells,
//! the registry built from them, the session lifecycle of a linked account,
//! the fan-out of playback events to broadcast services, and the queue model.

pub mod dispatcher;
pub mod events;
pub mod header;
pub mod queue;
pub mod queue_view;
pub mod reactive;
pub mod registry;
pub mod session;
