//! Data models mirroring the panel's JSON schemas.
//!
//! These are plain value types; the asynchronous shell owns the wire
//! encoding and hands decoded values in and out of the library.

pub mod admin;
pub mod auth;
pub mod base;
pub mod components;
pub mod errors;
pub mod node;
pub mod proxy;
pub mod system;
pub mod token;
pub mod user;
pub mod user_template;
