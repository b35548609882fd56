//! Mapping IDs between two services.

use vstd::prelude::*;
use crate::Error;
use crate::usecases::Getter;

verus! {

/// Mapper transforms IDs between two services based on the data from a provider.
pub trait Mapper {
    /// Holds of each answer that `map_ids` may give for the source IDs `ids`.
    /// An implementation that leaves it as it is promises nothing of its answers.
    open spec fn map_answer(&self, ids: Seq<Seq<char>>, answer: Result<Vec<String>, Error>) -> bool {
        true
    }

    /// Holds of each answer that `refresh` may give.
    /// An implementation that leaves it as it is promises nothing of its answers.
    open spec fn refresh_answer(&self, answer: Result<(), Error>) -> bool {
        true
    }

    /// The target IDs of the source IDs `ids`.
    fn map_ids(&self, ids: &[String]) -> (answer: Result<Vec<String>, Error>)
        ensures
            self.map_answer(ids.deep_view(), answer),
    ;

    /// Updates the mapping definitions with data that `client` retrieves.
    fn refresh<G: Getter>(&self, client: &G) -> (answer: Result<(), Error>)
        ensures
            self.refresh_answer(answer),
    ;
}

} // verus!
