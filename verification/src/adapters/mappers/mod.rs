//! Mappers of IDs between two services.

pub mod memory;
pub mod persistent;

pub use memory::Memory;
pub use persistent::Persistent;
