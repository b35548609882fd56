//! The values that the library hands around.

pub mod customlist;
pub mod media;

pub use customlist::CustomEntry;
pub use customlist::CustomList;
pub use media::Media;
pub use media::MediaView;
pub use media::SourceID;
pub use media::TargetID;
