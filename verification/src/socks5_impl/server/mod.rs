//! The server side of a SOCKS5 session.
pub mod connection;

pub use self::connection::{Authenticated, ClientConnection, IncomingConnection};
