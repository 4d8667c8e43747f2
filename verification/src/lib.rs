//! A client-side encoder and request signer for a record-management HTTP API
//! that expects PHP-style bracket notation for nested query parameters.
//!
//! The crate has three verified parts:
//! - the filter data model ([`Value`], [`Where`], [`FilterType`], [`Params`]),
//! - the query-string serializer ([`serialize`]), which renders a [`Params`]
//!   into a `&`-joined, percent-encoded query string, and
//! - the authentication resolver on [`EspoApiClient`], which picks exactly one
//!   of Basic, HMAC or API-key authentication and computes its header value.
//!
//! The network transport itself is outside this crate: callers take the
//! prepared URL and authentication artifact and hand them to an HTTP library.

pub mod auth;
pub mod client;
pub mod encoding;
pub mod serializer;
pub mod types;

pub use auth::ResolvedAuth;
pub use client::EspoApiClient;
pub use client::Method;
pub use client::PreparedRequest;
pub use serializer::serialize;
pub use types::FilterType;
pub use types::Order;
pub use types::Params;
pub use types::Value;
pub use types::Where;
