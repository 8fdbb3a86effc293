//! PROXY Protocol v2: the header that a load balancer puts in front of a
//! forwarded TCP connection to name the endpoints the client connected from
//! and to.
pub mod result;
pub mod version2;

pub use result::{Error, Result};
pub use version2::{parse_proxy_protocol, Command, Preamble, ProxyAddresses, ProxyHeader};
