//! A media item, by its ID in the source service and in the target service.

use vstd::prelude::*;
use crate::usecases::Metadata;

verus! {

/// The ID of a media item in the source service (Anilist).
pub type SourceID = String;

/// The ID of a media item in the target service (TVDB).
pub type TargetID = String;

/// A media item, by its ID in the source service and in the target service.
#[derive(Debug, Clone)]
pub struct Media {
    pub source_id: SourceID,
    pub target_id: TargetID,
}

/// A media item as text: its source ID and its target ID.
pub struct MediaView {
    pub source_id: Seq<char>,
    pub target_id: Seq<char>,
}

impl View for Media {
    type V = MediaView;

    open spec fn view(&self) -> MediaView {
        MediaView { source_id: self.source_id@, target_id: self.target_id@ }
    }
}

impl Media {
    /// The media item that `value` describes.
    pub fn from<M: Metadata>(value: M) -> (media: Media)
        ensures
            media.source_id@ == value.spec_source_id(),
            media.target_id@ == value.spec_target_id(),
    {
        Media { source_id: value.source_id(), target_id: value.target_id() }
    }
}

} // verus!
