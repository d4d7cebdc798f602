//! Typed client core for the Marzban panel's REST API.
//!
//! The library owns everything about a call that can be decided without the
//! network: client state (base URL and the optional bearer token), the exact
//! request each endpoint sends (method, URL, query parameters, body encoding),
//! the status-code-to-outcome table shared by every endpoint, the rendering of
//! validation-error envelopes, and the wire format for timestamps. A thin
//! asynchronous shell performs the HTTP round trips and hands the numeric
//! status code and decoded bodies back to these functions.

pub mod api;
pub mod client;
pub mod datetime;
pub mod dispatch;
pub mod error;
pub mod models;
pub mod text;
