//! A source of ID mappings.

use vstd::prelude::*;
use crate::Error;
use crate::usecases::Getter;
use crate::usecases::Metadata;

verus! {

/// A source of the IDs of media items in several services.
pub trait Provider<M: Metadata> {
    /// Holds of each answer that `fetch` may give.
    /// An implementation that leaves it as it is promises nothing of its answers.
    open spec fn fetch_answer(&self, answer: Result<Vec<M>, Error>) -> bool {
        true
    }

    /// The media items that the provider knows, retrieved through `client`.
    fn fetch<G: Getter>(&self, client: &G) -> (answer: Result<Vec<M>, Error>)
        ensures
            self.fetch_answer(answer),
    ;
}

} // verus!
