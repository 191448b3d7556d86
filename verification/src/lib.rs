//! Middleware that gives every outbound request a `Host` header derived from
//! its target URI, unless the caller already set one.

pub mod ascii;
pub mod headers;
pub mod layer;
pub mod middleware;
pub mod target;
