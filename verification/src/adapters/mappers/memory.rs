//! A volatile mapper.

use vstd::prelude::*;
use vstd::hash_map::StringHashMap;
use crate::Error;
use crate::usecases::Getter;
use crate::usecases::Mapper;

verus! {

/// The target IDs that `mapping` gives for `ids`, in order; the IDs that it
/// has no entry for are left out.
pub open spec fn mapped_ids(mapping: Map<Seq<char>, String>, ids: Seq<Seq<char>>) -> Seq<Seq<char>>
    decreases ids.len(),
{
    if ids.len() == 0 {
        Seq::<Seq<char>>::empty()
    } else {
        let rest = mapped_ids(mapping, ids.drop_last());
        if mapping.contains_key(ids.last()) {
            rest.push(mapping[ids.last()]@)
        } else {
            rest
        }
    }
}

/// Memory implements a volatile mapper.
pub struct Memory {
    /// mapping is a public map used as the data source for IDs.
    pub mapping: StringHashMap<String>,
}

impl Memory {
    /// A mapper that knows no IDs.
    pub fn new() -> (mapper: Memory)
        ensures
            mapper.mapping@ == Map::<Seq<char>, String>::empty(),
    {
        Memory { mapping: StringHashMap::new() }
    }
}

impl Default for Memory {
    fn default() -> (mapper: Memory)
        ensures
            mapper.mapping@ == Map::<Seq<char>, String>::empty(),
    {
        Memory::new()
    }
}

impl Mapper for Memory {
    /// Always the target IDs that the mapping gives for `ids`.
    open spec fn map_answer(&self, ids: Seq<Seq<char>>, answer: Result<Vec<String>, Error>) -> bool {
        answer matches Ok(targets) && targets.deep_view() == mapped_ids(self.mapping@, ids)
    }

    /// Always success: there is nothing to refresh.
    open spec fn refresh_answer(&self, answer: Result<(), Error>) -> bool {
        answer matches Ok(_)
    }

    fn map_ids(&self, ids: &[String]) -> (answer: Result<Vec<String>, Error>)
        ensures
            answer matches Ok(targets) && targets.deep_view() == ids.deep_view().filter_map(
                |id: Seq<char>| target_of(self.mapping@, id),
            ),
    {
        proof {
            lemma_mapped_ids_filter_map(self.mapping@, ids.deep_view());
        }
        let ghost all = ids.deep_view();
        let mut targets: Vec<String> = Vec::new();
        let mut i: usize = 0;
        while i < ids.len()
            invariant
                i <= ids.len(),
                all == ids.deep_view(),
                targets.deep_view() == mapped_ids(self.mapping@, all.take(i as int)),
            decreases ids.len() - i,
        {
            assert(all.take(i + 1).drop_last() =~= all.take(i as int));
            assert(all.take(i + 1).last() == ids[i as int]@);
            match self.mapping.get(ids[i].as_str()) {
                Some(target) => {
                    let ghost before = targets.deep_view();
                    targets.push(target.clone());
                    assert(targets.deep_view() =~= before.push(target@));
                },
                None => {},
            }
            i = i + 1;
        }
        assert(all.take(ids.len() as int) =~= all);
        Ok(targets)
    }

    fn refresh<G: Getter>(&self, _client: &G) -> (answer: Result<(), Error>) {
        Ok(())
    }
}

/// The target that `mapping` gives for `id`, where it has one.
pub open spec fn target_of(mapping: Map<Seq<char>, String>, id: Seq<char>) -> Option<Seq<char>> {
    if mapping.contains_key(id) {
        Some(mapping[id]@)
    } else {
        None
    }
}

proof fn lemma_mapped_ids_filter_map(mapping: Map<Seq<char>, String>, ids: Seq<Seq<char>>)
    ensures
        mapped_ids(mapping, ids) == ids.filter_map(|id: Seq<char>| target_of(mapping, id)),
    decreases ids.len(),
{
    if ids.len() > 0 {
        lemma_mapped_ids_filter_map(mapping, ids.drop_last());
        let rest = ids.drop_last().filter_map(|id: Seq<char>| target_of(mapping, id));
        if mapping.contains_key(ids.last()) {
            assert(rest.push(mapping[ids.last()]@) =~= rest + seq![mapping[ids.last()]@]);
        }
    }
}

/// The in-memory mapper always succeeds, and maps every ID that its mapping
/// has an entry for to that entry's target, in order, leaving out only the
/// IDs it has no entry for: one target per known ID.
pub proof fn law_map_ids_maps_each_known_id(
    mapper: Memory,
    ids: Seq<Seq<char>>,
    answer: Result<Vec<String>, Error>,
)
    requires
        mapper.map_answer(ids, answer),
    ensures
        answer matches Ok(targets) && targets.deep_view() == ids.filter_map(
            |id: Seq<char>| target_of(mapper.mapping@, id),
        ),
{
    lemma_mapped_ids_filter_map(mapper.mapping@, ids);
}

/// Asking for one more ID adds its target at the end where the mapping
/// knows it, and nothing where it does not.
pub proof fn law_map_ids_push(mapper: Memory, ids: Seq<Seq<char>>, id: Seq<char>)
    ensures
        mapper.mapping@.contains_key(id) ==> mapped_ids(mapper.mapping@, ids.push(id)) == mapped_ids(
            mapper.mapping@,
            ids,
        ).push(mapper.mapping@[id]@),
        !mapper.mapping@.contains_key(id) ==> mapped_ids(mapper.mapping@, ids.push(id))
            == mapped_ids(mapper.mapping@, ids),
        mapped_ids(mapper.mapping@, Seq::<Seq<char>>::empty()).len() == 0,
{
    assert(ids.push(id).drop_last() =~= ids);
}

} // verus!
