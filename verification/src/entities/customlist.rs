//! The custom list that Sonarr and Radarr read.

use vstd::prelude::*;

verus! {

/// An entry of a custom list: a series, by its TVDB ID.
#[derive(Debug, Clone, Copy, PartialEq, Eq, Structural)]
pub struct CustomEntry {
    pub tvdb_id: u64,
}

/// A custom list: the series to follow.
pub type CustomList = Vec<CustomEntry>;

} // verus!
