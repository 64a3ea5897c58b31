//! The token endpoint: from an authenticated request to a response.
pub mod grant;
pub mod request;
pub mod response;
pub mod route;

pub use route::{route, TokenExchangeState};
