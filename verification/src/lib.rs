//! Bridge between an asynchronous remote-procedure front end and a
//! single-threaded controller that executes management operations one at a
//! time. The front end decodes each call's configuration text, submits the
//! resulting command over a multi-producer channel together with an eventfd
//! wake-up, and translates the controller's reply; a two-phase handshake
//! tears the bridge's dedicated thread down without dropping in-flight
//! replies.

pub mod api;
pub mod channel;
pub mod command;
pub mod config;
pub mod error;
pub mod notifier;
pub mod protocol;
pub mod reply;
pub mod shutdown;
