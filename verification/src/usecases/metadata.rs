//! The IDs that a provider knows of a media item.

use vstd::prelude::*;

verus! {

/// The IDs that a provider knows of a media item.
pub trait Metadata {
    /// The ID of the item in the source service.
    spec fn spec_source_id(&self) -> Seq<char>;

    /// The ID of the item in the target service.
    spec fn spec_target_id(&self) -> Seq<char>;

    /// The ID of the item in the source service.
    fn source_id(&self) -> (id: String)
        ensures
            id@ == self.spec_source_id(),
    ;

    /// The ID of the item in the target service.
    fn target_id(&self) -> (id: String)
        ensures
            id@ == self.spec_target_id(),
    ;
}

} // verus!
