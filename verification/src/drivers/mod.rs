//! The services that the library comes with, and the decisions of those that
//! reach outside it.

pub mod api;
pub mod caches;
pub mod providers;
pub mod stores;
pub mod trackers;
