//! Wire-protocol codecs for a TCP-layer proxy: an HTTP/1.1 head codec, a
//! PROXY Protocol v2 header reader, and a SOCKS5 message codec with its
//! server-side session phases.
//!
//! Every function in this crate is pure: it works on bytes that the caller has
//! already received and returns the bytes that the caller is to send.
pub mod bytes;
pub mod http_impl;
pub mod net;
pub mod proxy_protocol;
pub mod socks5_impl;
pub mod text;
