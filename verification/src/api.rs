//! Request plans for every endpoint.
//!
//! Each operation has one function here that fixes everything about its
//! call except the network: the method, the full URL, the bearer token, the
//! query pairs, the body encoding, and the status branches the endpoint
//! declares. The asynchronous shell sends the request and maps the answer
//! through the branch set.

pub mod admin;
pub mod default;
pub mod node;
pub mod subscription;
pub mod system;
pub mod user;
pub mod user_template;
pub mod xray_core;
