pub mod mappers;
pub mod trackers;
