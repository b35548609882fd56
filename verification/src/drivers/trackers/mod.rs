//! Trackers of the media that users watch.

pub mod anilist;
pub mod memory;

pub use memory::Memory;
