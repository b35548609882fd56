//! Trackers built on other trackers.

pub mod cachedtracker;

pub use cachedtracker::CachedTracker;
