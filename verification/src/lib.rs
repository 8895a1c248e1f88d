//! Webhook update listener core: request authentication, cancellation,
//! channel hand-off and the state machines that drive serving and teardown.

pub mod channel;
pub mod endpoint;
pub mod handler;
pub mod listener;
pub mod request;
pub mod secret;
pub mod setup;
pub mod stop;
pub mod transport;
pub mod webhook;
