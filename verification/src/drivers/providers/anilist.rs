//! The Anilist to TVDB mappings of Fribbs' anime lists.

use vstd::prelude::*;
use crate::drivers::providers::Entry;
use crate::usecases::Errors;

verus! {

/// Fribbs provides a data source for IDs between multiple services and TVDB,
/// at the URL it holds.
#[derive(Debug, Clone)]
pub struct Fribbs(pub String);

/// A record of the list: the IDs of one media item in some of the services.
#[derive(Debug, Clone, Copy, PartialEq, Eq, Structural)]
pub struct AnilistData {
    pub anilist_id: Option<u64>,
    pub thetvdb_id: Option<u64>,
}

/// The two IDs of a record, where it has both.
pub open spec fn ids_of(data: AnilistData) -> Option<(u64, u64)> {
    match (data.anilist_id, data.thetvdb_id) {
        (Some(a), Some(t)) => Some((a, t)),
        _ => None,
    }
}

/// The ID pairs of the records `data` that have both IDs, in order.
pub open spec fn id_pairs_of(data: Seq<AnilistData>) -> Seq<(u64, u64)>
    decreases data.len(),
{
    if data.len() == 0 {
        Seq::<(u64, u64)>::empty()
    } else {
        let rest = id_pairs_of(data.drop_last());
        match ids_of(data.last()) {
            Some(pair) => rest.push(pair),
            None => rest,
        }
    }
}

/// The ID pairs of the entries `entries`, in order.
pub open spec fn entry_pairs(entries: Seq<Entry>) -> Seq<(u64, u64)> {
    entries.map_values(|e: Entry| (e.anilist_id(), e.tvdb_id()))
}

impl Entry {
    /// The entry of a record: an error that names the first ID it lacks.
    pub fn try_from(value: AnilistData) -> (entry: Result<Entry, Errors>)
        ensures
            match ids_of(value) {
                Some(pair) => entry matches Ok(e) && (e.anilist_id(), e.tvdb_id()) == pair,
                None => entry matches Err(Errors::Unknown(what)) && what@ == (
                if value.anilist_id is None {
                    "no anilist id"@
                } else {
                    "no tvdb id"@
                }),
            },
    {
        let anilist_id = match value.anilist_id {
            Some(id) => id,
            None => return Err(Errors::Unknown(String::from_str("no anilist id"))),
        };
        let thetvdb_id = match value.thetvdb_id {
            Some(id) => id,
            None => return Err(Errors::Unknown(String::from_str("no tvdb id"))),
        };
        Ok(Entry::new(anilist_id, thetvdb_id))
    }
}

impl Fribbs {
    /// The entries of the records `data` of the list that have both IDs, in
    /// order; the others are left out.
    pub fn entries(data: Vec<AnilistData>) -> (entries: Vec<Entry>)
        ensures
            entry_pairs(entries@) == id_pairs_of(data@),
            entry_pairs(entries@) == data@.filter_map(|d: AnilistData| both_ids(d)),
    {
        proof {
            law_entries_keep_each_complete_record(data@);
        }
        let mut entries: Vec<Entry> = Vec::new();
        let mut i: usize = 0;
        while i < data.len()
            invariant
                i <= data.len(),
                entry_pairs(entries@) == id_pairs_of(data@.take(i as int)),
            decreases data.len() - i,
        {
            assert(data@.take(i + 1).drop_last() =~= data@.take(i as int));
            match Entry::try_from(data[i]) {
                Ok(entry) => {
                    let ghost before = entries@;
                    entries.push(entry);
                    assert(entry_pairs(entries@) =~= entry_pairs(before).push(
                        (entry.anilist_id(), entry.tvdb_id()),
                    ));
                },
                Err(_) => {},
            }
            i = i + 1;
        }
        assert(data@.take(data.len() as int) =~= data@);
        entries
    }
}

/// The ID pair of a record that has both IDs.
pub open spec fn both_ids(data: AnilistData) -> Option<(u64, u64)> {
    match data.anilist_id {
        Some(a) => match data.thetvdb_id {
            Some(t) => Some((a, t)),
            None => None,
        },
        None => None,
    }
}

/// The entries of a list are its records that have both IDs, one entry per
/// such record with that record's two IDs, in order; no other record has a
/// bearing on them.
pub proof fn law_entries_keep_each_complete_record(data: Seq<AnilistData>)
    ensures
        id_pairs_of(data) == data.filter_map(|d: AnilistData| both_ids(d)),
    decreases data.len(),
{
    if data.len() > 0 {
        law_entries_keep_each_complete_record(data.drop_last());
        let rest = data.drop_last().filter_map(|d: AnilistData| both_ids(d));
        match both_ids(data.last()) {
            Some(pair) => {
                assert(rest.push(pair) =~= rest + seq![pair]);
            },
            None => {},
        }
    }
}

/// A record appended to a list adds its entry at the end where it has both
/// IDs, and nothing where it lacks one.
pub proof fn law_entries_push(data: Seq<AnilistData>, record: AnilistData)
    ensures
        id_pairs_of(data.push(record)) == match both_ids(record) {
            Some(pair) => id_pairs_of(data).push(pair),
            None => id_pairs_of(data),
        },
{
    assert(data.push(record).drop_last() =~= data);
}

} // verus!
