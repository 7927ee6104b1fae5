//! Supervision of one shell command: output capture, notification texts,
//! the notification queue and the lifecycle that ties them together.

pub mod dispatcher;
pub mod invocation;
pub mod lifecycle;
pub mod message;
pub mod relay;
pub mod runner;
pub mod stream;
pub mod tail;
pub mod text;
