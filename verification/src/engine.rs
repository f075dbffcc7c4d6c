//! The login engine.

pub mod base;
pub mod callback;
pub mod chain;
pub mod load;
pub mod logout;
pub mod redirect;
pub mod request;
pub mod response;
pub mod retry;

pub use chain::error_chain;
pub use request::{is_cors_preflight, is_cross_site_request, is_navigation_request};
