//! A minimal message-ingestion relay.
//!
//! An HTTP front end hands each request body to the library as plain text. The
//! library stamps it into a [`message::ServerMessage`], runs every registered
//! [`observer::Observer`] over it in registration order, and forwards it into a
//! bounded delivery channel for a downstream consumer. A shared, mutually
//! exclusive handle ([`shared::ServerState`]) lets many concurrent request
//! tasks drive the one server, one dispatch at a time.

mod ext;
pub mod message;
pub mod observer;
pub mod server;
pub mod shared;
