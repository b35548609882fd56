//! Providers of ID mappings.

pub mod anilist;

use vstd::prelude::*;
use crate::text::IntErrorKind;
use crate::text::decimal;
use crate::text::lemma_read_decimal;
use crate::text::read_unsigned;
use crate::text::u64_to_decimal;
use crate::usecases::Metadata;

verus! {

/// A media item by its Anilist ID and its TVDB ID.
#[derive(Debug, Clone, Copy, PartialEq, Eq, Structural)]
pub struct Entry(u64, u64);

impl Entry {
    /// The Anilist ID of the item.
    pub closed spec fn anilist_id(&self) -> u64 {
        self.0
    }

    /// The TVDB ID of the item.
    pub closed spec fn tvdb_id(&self) -> u64 {
        self.1
    }

    /// The item whose Anilist ID is `anilist_id` and whose TVDB ID is `tvdb_id`.
    pub(crate) fn new(anilist_id: u64, tvdb_id: u64) -> (entry: Entry)
        ensures
            entry.anilist_id() == anilist_id,
            entry.tvdb_id() == tvdb_id,
    {
        Entry(anilist_id, tvdb_id)
    }
}

impl Metadata for Entry {
    /// The Anilist ID, in decimal.
    open spec fn spec_source_id(&self) -> Seq<char> {
        decimal(self.anilist_id() as nat)
    }

    /// The TVDB ID, in decimal.
    open spec fn spec_target_id(&self) -> Seq<char> {
        decimal(self.tvdb_id() as nat)
    }

    fn source_id(&self) -> (id: String) {
        u64_to_decimal(self.0)
    }

    fn target_id(&self) -> (id: String) {
        u64_to_decimal(self.1)
    }
}

/// The target ID of an entry reads back as the entry's TVDB ID.
pub proof fn law_target_id_reads_back(entry: Entry)
    ensures
        read_unsigned(entry.spec_target_id(), u64::MAX as nat) == Ok::<nat, IntErrorKind>(
            entry.tvdb_id() as nat,
        ),
{
    lemma_read_decimal(entry.tvdb_id() as nat, u64::MAX as nat);
}

} // verus!
