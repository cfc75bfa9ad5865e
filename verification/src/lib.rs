//! The verified core of a discussion-forum backend: the session and
//! credential layer (token signing and verification, credential extraction,
//! strict and permissive resolution) and the live-event distribution layer
//! (a keyed registry of broadcast channels, a global topic broadcaster, and
//! the event-stream state machine with its keepalive rule).

pub mod auth;
pub mod channel;
pub mod config;
pub mod db;
pub mod error;
pub mod events;
pub mod flow;
pub mod registry;
pub mod session;
pub mod stream;
pub mod token;

pub use error::{ClientError, Error};
