//! Streaming: the events of a session, the subscriptions, and the supervisor
//! of the connection.

pub mod client;
pub mod events;
pub mod subscription;
