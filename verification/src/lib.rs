//! Decision logic of a mobile application shell that bridges native push
//! notifications into application events.
//!
//! The host framework and the native messaging SDK do the delivery; this
//! library pins down everything the shell itself decides: the order in
//! which the framework plugins are registered, the wire names of the
//! push-messaging plugin's commands, the application event under which
//! each native callback is re-emitted, and what is emitted for a given
//! callback body — the decoded payload when the body is well-formed JSON,
//! a fixed error marker when it is not.

pub mod bridge;
pub mod events;
pub mod json;
pub mod plugins;
