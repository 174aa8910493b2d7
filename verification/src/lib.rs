//! The decision core of a small network proxy front door.
//!
//! The crate holds no sockets and never blocks. It owns the proxy's lifecycle
//! record, and it decides, one event at a time, what the serving entry point,
//! the accept loop and each connection handler do next. A driver performs the
//! input and output and reports each outcome back as an event.

pub mod acceptor;
pub mod address;
pub mod config;
pub mod connection;
pub mod proxy;
pub mod state;
pub mod system;
