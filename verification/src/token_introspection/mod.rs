//! The introspection endpoint: whether a token is active.
pub mod middleware;
pub mod route;
