//! Connection planning for upstream DNS clients, the decision core of a
//! bidirectional relay with idle timeouts, and loading and querying of a
//! MaxMind country database.
//!
//! Everything that touches sockets, files or the async runtime is left to the
//! caller: the functions here take what such work produced and say what to do
//! next.

pub mod text;
pub mod error;
pub mod addr;
pub mod dns_client;
pub mod io;
pub mod mmdb_format;
pub mod mmdb;
