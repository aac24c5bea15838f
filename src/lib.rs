//! Live synchronisation core of a shared to-do list: the presence registry,
//! the message vocabulary exchanged with browsers, and the per-connection
//! state machine that relays between a browser and the broadcast bus.
pub mod connection;
pub mod json;
pub mod protocol;
pub mod routes;
pub mod sessions;
pub mod store;
