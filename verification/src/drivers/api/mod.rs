//! The REST API.

pub mod handlers;
pub mod limits;
