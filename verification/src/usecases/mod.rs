//! The use cases: what the library asks of the services it is built from.

pub mod cache;
pub mod errors;
pub mod getter;
pub mod mapper;
pub mod medialister;
pub mod metadata;
pub mod provider;
pub mod store;
pub mod tracker;

pub use cache::Cache;
pub use cache::CacheOptions;
pub use errors::Errors;
pub use errors::errors_message;
pub use getter::Getter;
pub use mapper::Mapper;
pub use medialister::MediaLister;
pub use medialister::TrackerMediaLister;
pub use metadata::Metadata;
pub use provider::Provider;
pub use store::Store;
pub use tracker::Tracker;
