//! An HTTP-triggered counter: requests are routed by method and path, and
//! counter routes increment a namespaced key in an external key-value store.
//!
//! The library decides; the host performs the store calls and the logging
//! and hands the outcomes back (see `handler`).
pub mod key;
pub mod text;
pub mod body;
pub mod route;
pub mod handler;
pub mod model;
