//! Access to user metadata in an upstream media tracking service.

use vstd::prelude::*;
use crate::Error;

verus! {

/// Tracker provides access to user metadata such as ID and media list from an
/// upstream media tracking service.
pub trait Tracker {
    /// Holds of each answer that `get_user_id` may give for `name`.
    /// An implementation that leaves it as it is promises nothing of its answers.
    open spec fn user_id_answer(&self, name: Seq<char>, answer: Result<String, Error>) -> bool {
        true
    }

    /// Holds of each answer that `get_media_list_ids` may give for `user_id`.
    /// An implementation that leaves it as it is promises nothing of its answers.
    open spec fn media_list_answer(&self, user_id: Seq<char>, answer: Result<Vec<String>, Error>) -> bool {
        true
    }

    /// The ID of the user whose name or handle is `name`.
    fn get_user_id(&self, name: &str) -> (answer: Result<String, Error>)
        ensures
            self.user_id_answer(name@, answer),
    ;

    /// The source IDs of the media that the user `user_id` is watching.
    fn get_media_list_ids(&self, user_id: &str) -> (answer: Result<Vec<String>, Error>)
        ensures
            self.media_list_answer(user_id@, answer),
    ;
}

} // verus!
