//! Generating custom lists from the media that users watch.

use vstd::prelude::*;
use crate::Error;
use crate::entities::CustomEntry;
use crate::text::decimal;
use crate::text::lemma_read_decimal;
use crate::text::parse_u64;
use crate::text::read_unsigned;
use crate::usecases::Getter;
use crate::usecases::Mapper;
use crate::usecases::Tracker;

verus! {

/// Generating custom lists from the media that users watch.
pub trait MediaLister {
    /// Holds of each answer that `generate` may give for `name`.
    /// An implementation that leaves it as it is promises nothing of its answers.
    open spec fn generate_answer(&self, name: Seq<char>, answer: Result<Vec<CustomEntry>, Error>) -> bool {
        true
    }

    /// Holds of each answer that `get_user_id` may give for `name`.
    /// An implementation that leaves it as it is promises nothing of its answers.
    open spec fn user_id_answer(&self, name: Seq<char>, answer: Result<String, Error>) -> bool {
        true
    }

    /// Holds of each answer that `refresh` may give.
    /// An implementation that leaves it as it is promises nothing of its answers.
    open spec fn refresh_answer(&self, answer: Result<(), Error>) -> bool {
        true
    }

    /// generate fetches the user media list from the Tracker and transforms the
    /// IDs found to the target service through the Mapper.
    fn generate(&self, name: &str) -> (answer: Result<Vec<CustomEntry>, Error>)
        ensures
            self.generate_answer(name@, answer),
    ;

    /// get_user_id searches the Tracker for the user ID by their name/handle.
    fn get_user_id(&self, name: &str) -> (answer: Result<String, Error>)
        ensures
            self.user_id_answer(name@, answer),
    ;

    /// refresh requests the Mapper to update its mapping definitions.
    fn refresh<G: Getter>(&self, client: &G) -> (answer: Result<(), Error>)
        ensures
            self.refresh_answer(answer),
    ;
}

/// The custom list of the target IDs `ids`: in order, an entry for each ID
/// that reads as a `u64`; the other IDs are left out.
pub open spec fn custom_list(ids: Seq<Seq<char>>) -> Seq<CustomEntry>
    decreases ids.len(),
{
    if ids.len() == 0 {
        Seq::<CustomEntry>::empty()
    } else {
        let rest = custom_list(ids.drop_last());
        match read_unsigned(ids.last(), u64::MAX as nat) {
            Ok(v) => rest.push(CustomEntry { tvdb_id: v as u64 }),
            Err(_) => rest,
        }
    }
}

/// The custom list of the target IDs `ids`: in order, an entry for each ID
/// that reads as a `u64`; the other IDs are left out.
pub fn custom_list_of(ids: &Vec<String>) -> (list: Vec<CustomEntry>)
    ensures
        list@ == custom_list(ids.deep_view()),
{
    let ghost all = ids.deep_view();
    let mut list: Vec<CustomEntry> = Vec::new();
    let mut i: usize = 0;
    while i < ids.len()
        invariant
            i <= ids.len(),
            all == ids.deep_view(),
            list@ == custom_list(all.take(i as int)),
        decreases ids.len() - i,
    {
        assert(all.take(i + 1).drop_last() =~= all.take(i as int));
        assert(all.take(i + 1).last() == ids[i as int]@);
        match parse_u64(ids[i].as_str()) {
            Ok(v) => list.push(CustomEntry { tvdb_id: v }),
            Err(_) => {},
        }
        i = i + 1;
    }
    assert(all.take(ids.len() as int) =~= all);
    list
}

/// Target IDs written in decimal are read back as the entries of those IDs,
/// in order: the custom list loses none of them.
pub proof fn law_decimal_target_ids_read_back(tvdb_ids: Seq<u64>)
    ensures
        custom_list(tvdb_ids.map_values(|t: u64| decimal(t as nat))) == tvdb_ids.map_values(
            |t: u64| CustomEntry { tvdb_id: t },
        ),
    decreases tvdb_ids.len(),
{
    let ids = tvdb_ids.map_values(|t: u64| decimal(t as nat));
    let entries = tvdb_ids.map_values(|t: u64| CustomEntry { tvdb_id: t });
    if tvdb_ids.len() > 0 {
        let pre = tvdb_ids.drop_last();
        law_decimal_target_ids_read_back(pre);
        assert(ids.drop_last() =~= pre.map_values(|t: u64| decimal(t as nat)));
        assert(entries.drop_last() =~= pre.map_values(|t: u64| CustomEntry { tvdb_id: t }));
        lemma_read_decimal(tvdb_ids.last() as nat, u64::MAX as nat);
        assert(entries =~= entries.drop_last().push(CustomEntry { tvdb_id: tvdb_ids.last() }));
    } else {
        assert(entries =~= Seq::<CustomEntry>::empty());
    }
}

/// A media lister that asks a tracker for what a user watches and a mapper
/// for the target IDs of it.
pub struct TrackerMediaLister<T: Tracker, M: Mapper> {
    tracker: T,
    mapper: M,
}

impl<T: Tracker, M: Mapper> TrackerMediaLister<T, M> {
    /// The tracker that this lister asks.
    pub closed spec fn tracker(&self) -> T {
        self.tracker
    }

    /// The mapper that this lister asks.
    pub closed spec fn mapper(&self) -> M {
        self.mapper
    }

    /// A media lister that asks `tracker` and `mapper`.
    pub fn new(tracker: T, mapper: M) -> (lister: Self)
        ensures
            lister.tracker() == tracker,
            lister.mapper() == mapper,
    {
        TrackerMediaLister { tracker, mapper }
    }
}

impl<T: Tracker, M: Mapper> MediaLister for TrackerMediaLister<T, M> {
    /// An answer is a list where the tracker gave a user ID for `name` and a
    /// media list for that ID, and the mapper gave target IDs for that list:
    /// the list is then the custom list of those target IDs. It is an error
    /// where the first of these three calls that failed gave that error.
    open spec fn generate_answer(&self, name: Seq<char>, answer: Result<Vec<CustomEntry>, Error>) -> bool {
        let tracker = self.tracker();
        let mapper = self.mapper();
        match answer {
            Ok(list) => exists|user_id: String, source_ids: Vec<String>, target_ids: Vec<String>|
                {
                    &&& #[trigger] tracker.user_id_answer(name, Ok(user_id))
                    &&& #[trigger] tracker.media_list_answer(user_id@, Ok(source_ids))
                    &&& #[trigger] mapper.map_answer(source_ids.deep_view(), Ok(target_ids))
                    &&& list@ == custom_list(target_ids.deep_view())
                },
            Err(e) => {
                ||| tracker.user_id_answer(name, Err(e))
                ||| exists|user_id: String|
                    {
                        &&& #[trigger] tracker.user_id_answer(name, Ok(user_id))
                        &&& {
                            ||| tracker.media_list_answer(user_id@, Err(e))
                            ||| exists|source_ids: Vec<String>|
                                {
                                    &&& #[trigger] tracker.media_list_answer(
                                        user_id@,
                                        Ok(source_ids),
                                    )
                                    &&& mapper.map_answer(source_ids.deep_view(), Err(e))
                                }
                        }
                    }
            },
        }
    }

    /// Exactly what the tracker answers.
    open spec fn user_id_answer(&self, name: Seq<char>, answer: Result<String, Error>) -> bool {
        self.tracker().user_id_answer(name, answer)
    }

    /// Exactly what the mapper answers.
    open spec fn refresh_answer(&self, answer: Result<(), Error>) -> bool {
        self.mapper().refresh_answer(answer)
    }

    fn generate(&self, name: &str) -> (answer: Result<Vec<CustomEntry>, Error>) {
        let found_user = self.tracker.get_user_id(name);
        let user_id = match found_user {
            Ok(id) => id,
            Err(e) => return Err(e),
        };
        let found_media = self.tracker.get_media_list_ids(user_id.as_str());
        let source_ids = match found_media {
            Ok(ids) => ids,
            Err(e) => {
                assert(self.tracker.user_id_answer(name@, Ok(user_id)));
                return Err(e);
            },
        };
        let source_slice = source_ids.as_slice();
        let mapped = self.mapper.map_ids(source_slice);
        assert(source_slice.deep_view() =~= source_ids.deep_view());
        let target_ids = match mapped {
            Ok(ids) => ids,
            Err(e) => {
                assert(self.tracker.user_id_answer(name@, Ok(user_id)));
                assert(self.tracker.media_list_answer(user_id@, Ok(source_ids)));
                return Err(e);
            },
        };
        let list = custom_list_of(&target_ids);
        let ghost tracker = self.tracker();
        assert(tracker.user_id_answer(name@, Ok(user_id)));
        assert(tracker.media_list_answer(user_id@, Ok(source_ids)));
        assert(self.mapper().map_answer(source_ids.deep_view(), Ok(target_ids)));
        Ok(list)
    }

    fn get_user_id(&self, name: &str) -> (answer: Result<String, Error>) {
        self.tracker.get_user_id(name)
    }

    fn refresh<G: Getter>(&self, client: &G) -> (answer: Result<(), Error>)
        ensures
            self.mapper().refresh_answer(answer),
    {
        self.mapper.refresh(client)
    }
}

/// An error of `generate` is one that a service gave: the tracker for the
/// name, the tracker for the media list of an ID it gave for the name, or the
/// mapper for a media list the tracker gave; the lister makes up no error of
/// its own, not even for an empty list.
pub proof fn law_generate_errors_come_from_services<T: Tracker, M: Mapper>(
    lister: TrackerMediaLister<T, M>,
    name: Seq<char>,
    e: Error,
)
    requires
        lister.generate_answer(name, Err(e)),
    ensures
        lister.tracker().user_id_answer(name, Err(e)) || exists|user_id: String|
            #[trigger] lister.tracker().user_id_answer(name, Ok(user_id)) && (
            lister.tracker().media_list_answer(user_id@, Err(e)) || exists|source_ids: Vec<String>|
                #[trigger] lister.tracker().media_list_answer(user_id@, Ok(source_ids))
                    && lister.mapper().map_answer(source_ids.deep_view(), Err(e))),
{
}

/// Where the tracker can only answer the name with a user ID and that ID with
/// a media list (of any length, empty too), and the mapper can only answer
/// that list with target IDs, `generate` succeeds with the custom list of
/// those target IDs.
pub proof fn law_generate_lists_what_services_give<T: Tracker, M: Mapper>(
    lister: TrackerMediaLister<T, M>,
    name: Seq<char>,
    user_id: String,
    source_ids: Vec<String>,
    target_ids: Vec<String>,
    answer: Result<Vec<CustomEntry>, Error>,
)
    requires
        forall|a: Result<String, Error>|
            #[trigger] lister.tracker().user_id_answer(name, a) ==> a == Ok::<String, Error>(user_id),
        forall|a: Result<Vec<String>, Error>|
            #[trigger] lister.tracker().media_list_answer(user_id@, a) ==> a == Ok::<
                Vec<String>,
                Error,
            >(source_ids),
        forall|a: Result<Vec<String>, Error>|
            #[trigger] lister.mapper().map_answer(source_ids.deep_view(), a) ==> a == Ok::<
                Vec<String>,
                Error,
            >(target_ids),
        lister.generate_answer(name, answer),
    ensures
        answer matches Ok(list) && list@ == custom_list(target_ids.deep_view()),
{
    match answer {
        Ok(list) => {
            let (u, s, t) = choose|u: String, s: Vec<String>, t: Vec<String>|
                {
                    &&& #[trigger] lister.tracker().user_id_answer(name, Ok(u))
                    &&& #[trigger] lister.tracker().media_list_answer(u@, Ok(s))
                    &&& #[trigger] lister.mapper().map_answer(s.deep_view(), Ok(t))
                    &&& list@ == custom_list(t.deep_view())
                };
            assert(Ok::<String, Error>(u) == Ok::<String, Error>(user_id));
            assert(u == user_id);
            assert(Ok::<Vec<String>, Error>(s) == Ok::<Vec<String>, Error>(source_ids));
            assert(Ok::<Vec<String>, Error>(t) == Ok::<Vec<String>, Error>(target_ids));
        },
        Err(e) => {
            assert(!lister.tracker().user_id_answer(name, Err(e)));
            assert forall|u: String| #[trigger] lister.tracker().user_id_answer(name, Ok(u)) implies !(
            lister.tracker().media_list_answer(u@, Err(e)) || exists|s: Vec<String>|
                #[trigger] lister.tracker().media_list_answer(u@, Ok(s)) && lister.mapper().map_answer(
                    s.deep_view(),
                    Err(e),
                )) by {
                assert(Ok::<String, Error>(u) == Ok::<String, Error>(user_id));
                assert(!lister.tracker().media_list_answer(user_id@, Err(e)));
                assert forall|s: Vec<String>| #[trigger] lister.tracker().media_list_answer(
                    u@,
                    Ok(s),
                ) implies !lister.mapper().map_answer(s.deep_view(), Err(e)) by {
                    assert(Ok::<Vec<String>, Error>(s) == Ok::<Vec<String>, Error>(source_ids));
                }
            }
        },
    }
}

/// The lister's refresh answers exactly as its mapper's refresh does.
pub proof fn law_refresh_is_the_mappers<T: Tracker, M: Mapper>(
    lister: TrackerMediaLister<T, M>,
    answer: Result<(), Error>,
)
    ensures
        lister.refresh_answer(answer) == lister.mapper().refresh_answer(answer),
{
}

} // verus!
