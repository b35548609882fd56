//! A lasting store of media items.

use vstd::prelude::*;
use crate::Error;
use crate::entities::Media;
use crate::entities::MediaView;

verus! {

/// A lasting store of media items, by their source ID.
pub trait Store {
    /// Holds of each answer that `get_media` may give for `id`.
    /// An implementation that leaves it as it is promises nothing of its answers.
    open spec fn get_answer(&self, id: Seq<char>, answer: Result<Media, Error>) -> bool {
        true
    }

    /// Holds of each answer that `get_media_bulk` may give for `ids`.
    /// An implementation that leaves it as it is promises nothing of its answers.
    open spec fn get_bulk_answer(&self, ids: Seq<Seq<char>>, answer: Result<Vec<Media>, Error>) -> bool {
        true
    }

    /// Holds of each answer that `put_media` may give for `media`.
    /// An implementation that leaves it as it is promises nothing of its answers.
    open spec fn put_answer(&self, media: MediaView, answer: Result<(), Error>) -> bool {
        true
    }

    /// Holds of each answer that `put_media_bulk` may give for `medias`.
    /// An implementation that leaves it as it is promises nothing of its answers.
    open spec fn put_bulk_answer(&self, medias: Seq<MediaView>, answer: Result<(), Error>) -> bool {
        true
    }

    /// The media item whose source ID is `id`.
    fn get_media(&self, id: String) -> (answer: Result<Media, Error>)
        ensures
            self.get_answer(id@, answer),
    ;

    /// The media items whose source IDs are among `ids`.
    fn get_media_bulk(&self, ids: Vec<String>) -> (answer: Result<Vec<Media>, Error>)
        ensures
            self.get_bulk_answer(ids.deep_view(), answer),
    ;

    /// Keeps `media`.
    fn put_media(&self, media: Media) -> (answer: Result<(), Error>)
        ensures
            self.put_answer(media@, answer),
    ;

    /// Keeps each of `medias`.
    fn put_media_bulk(&self, medias: Vec<Media>) -> (answer: Result<(), Error>)
        ensures
            self.put_bulk_answer(medias@.map_values(|m: Media| m@), answer),
    ;
}

} // verus!
