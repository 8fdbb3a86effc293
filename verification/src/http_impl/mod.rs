//! HTTP/1.1 message heads: parsing, building, reading off a stream, and
//! `Proxy-Authorization`.
pub mod async_ext;
pub mod auth;
pub mod backend;
pub mod chars;
pub mod constants;
pub mod error;
pub mod header;
pub mod method;
pub mod request;
pub mod response;
pub mod status;
pub mod uri;

pub use async_ext::{HeadReader, ReadStatus};
pub use auth::BasicAuth;
pub use error::{HttpError, Result};
pub use header::HeaderMap;
pub use method::Method;
pub use request::{HttpRequest, HttpRequestBuilder};
pub use response::{HttpResponse, HttpResponseBuilder};
pub use status::StatusCode;
pub use uri::Uri;
