//! Errors reported to callers, and the server's greeting.

pub mod error_handlers;
pub mod utils;
pub mod validation;
