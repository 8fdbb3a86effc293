//! SOCKS5: the message codec and the phases of a server-side session.
pub mod error;
pub mod protocol;
pub mod server;

pub use error::{Error, Result};
