//! A tracker that asks a cache before it asks another tracker.

use vstd::prelude::*;
use crate::Error;
use crate::text::join_text;
use crate::text::free_of;
use crate::text::join_with;
use crate::text::lemma_join_split;
use crate::text::lemma_split_join;
use crate::text::split_on;
use crate::text::split_text;
use crate::usecases::Cache;
use crate::usecases::CacheOptions;
use crate::usecases::Tracker;

verus! {

/// The character between two IDs of a cached media list.
pub const MEDIA_LIST_SEPARATOR: char = '|';

/// The cache key of the media list of the user `user_id`.
pub open spec fn media_list_key(user_id: Seq<char>) -> Seq<char> {
    "anilist:user:"@ + user_id + ":medias"@
}

/// The cache key of the ID of the user `name`.
pub open spec fn user_id_key(name: Seq<char>) -> Seq<char> {
    "anilist:user:"@ + name + ":id"@
}

/// The cache key of the media list of the user `user_id`.
pub fn media_list_key_of(user_id: &str) -> (key: String)
    ensures
        key@ == media_list_key(user_id@),
{
    String::from_str("anilist:user:").concat(user_id).concat(":medias")
}

/// The cache key of the ID of the user `name`.
pub fn user_id_key_of(name: &str) -> (key: String)
    ensures
        key@ == user_id_key(name@),
{
    String::from_str("anilist:user:").concat(name).concat(":id")
}

/// A tracker that asks a cache before it asks another tracker, and keeps in
/// the cache what the other tracker answered.
pub struct CachedTracker<C: Cache, T: Tracker> {
    cache: C,
    tracker: T,
}

impl<C: Cache, T: Tracker> CachedTracker<C, T> {
    /// The cache that this tracker asks first.
    pub closed spec fn cache(&self) -> C {
        self.cache
    }

    /// The tracker that this tracker asks on a cache miss.
    pub closed spec fn tracker(&self) -> T {
        self.tracker
    }

    /// A tracker that asks `cache` first and `tracker` on a miss.
    pub fn new(cache: C, tracker: T) -> (cached: Self)
        ensures
            cached.cache() == cache,
            cached.tracker() == tracker,
    {
        CachedTracker { cache, tracker }
    }
}

impl<C: Cache, T: Tracker> Tracker for CachedTracker<C, T> {
    /// Where the cache held text under the user's key, that text; else what
    /// the tracker answered, and, where that is an ID, it was handed to the
    /// cache under the user's key, with no options.
    open spec fn user_id_answer(&self, name: Seq<char>, answer: Result<String, Error>) -> bool {
        let key = user_id_key(name);
        ||| exists|cached: String|
            {
                &&& #[trigger] self.cache().get_answer(key, Ok(cached))
                &&& answer == Ok::<String, Error>(cached)
            }
        ||| {
            &&& exists|e: Error| #[trigger] self.cache().get_answer(key, Err(e))
            &&& self.tracker().user_id_answer(name, answer)
            &&& answer matches Ok(id) ==> exists|written: Result<(), Error>|
                #[trigger] self.cache().set_answer(key, id@, None::<CacheOptions>, written)
        }
    }

    /// Where the cache held text under the user's key, the pieces of that
    /// text between the separators; else what the tracker answered, and, where
    /// that is a list, the list joined with separators was handed to the cache
    /// under the user's key, with no options.
    open spec fn media_list_answer(&self, user_id: Seq<char>, answer: Result<Vec<String>, Error>) -> bool {
        let key = media_list_key(user_id);
        ||| exists|cached: String|
            {
                &&& #[trigger] self.cache().get_answer(key, Ok(cached))
                &&& answer matches Ok(list)
                &&& list.deep_view() == split_on(cached@, MEDIA_LIST_SEPARATOR)
            }
        ||| {
            &&& exists|e: Error| #[trigger] self.cache().get_answer(key, Err(e))
            &&& self.tracker().media_list_answer(user_id, answer)
            &&& answer matches Ok(list) ==> exists|written: Result<(), Error>|
                #[trigger] self.cache().set_answer(
                    key,
                    join_with(list.deep_view(), MEDIA_LIST_SEPARATOR),
                    None::<CacheOptions>,
                    written,
                )
        }
    }

    fn get_media_list_ids(&self, user_id: &str) -> (answer: Result<Vec<String>, Error>) {
        let key = media_list_key_of(user_id);
        let cached = self.cache.get_string(key.clone());
        match cached {
            Ok(text) => {
                let list = split_text(text.as_str(), MEDIA_LIST_SEPARATOR);
                assert(self.cache().get_answer(key@, Ok(text)));
                return Ok(list);
            },
            Err(e) => {
                assert(self.cache().get_answer(key@, Err(e)));
            },
        }
        let found = self.tracker.get_media_list_ids(user_id);
        let medias = match found {
            Ok(medias) => medias,
            Err(e) => return Err(e),
        };
        let joined = join_text(&medias, MEDIA_LIST_SEPARATOR);
        let written = self.cache.set_string(key, joined, None);
        assert(self.cache().set_answer(
            media_list_key(user_id@),
            join_with(medias.deep_view(), MEDIA_LIST_SEPARATOR),
            None::<CacheOptions>,
            written,
        ));
        assert(self.tracker().media_list_answer(user_id@, Ok(medias)));
        Ok(medias)
    }

    fn get_user_id(&self, name: &str) -> (answer: Result<String, Error>) {
        let key = user_id_key_of(name);
        let cached = self.cache.get_string(key.clone());
        match cached {
            Ok(text) => {
                assert(self.cache().get_answer(key@, Ok(text)));
                return Ok(text);
            },
            Err(e) => {
                assert(self.cache().get_answer(key@, Err(e)));
            },
        }
        let found = self.tracker.get_user_id(name);
        let id = match found {
            Ok(id) => id,
            Err(e) => return Err(e),
        };
        let written = self.cache.set_string(key, id.clone(), None);
        assert(self.cache().set_answer(user_id_key(name@), id@, None::<CacheOptions>, written));
        assert(self.tracker().user_id_answer(name@, Ok(id)));
        Ok(id)
    }
}

/// A media list that the cached tracker handed to the cache on a miss is
/// read back as the same list on a later hit, where the list is not empty and
/// none of its IDs holds the separator.
pub proof fn law_cached_media_list_reads_back(list: Seq<Seq<char>>)
    requires
        list.len() >= 1,
        free_of(list, MEDIA_LIST_SEPARATOR),
    ensures
        split_on(join_with(list, MEDIA_LIST_SEPARATOR), MEDIA_LIST_SEPARATOR) == list,
{
    lemma_split_join(list, MEDIA_LIST_SEPARATOR);
}

/// The list that a hit reads from cached text, joined again, is that text.
pub proof fn law_cached_text_rejoins(text: Seq<char>)
    ensures
        join_with(split_on(text, MEDIA_LIST_SEPARATOR), MEDIA_LIST_SEPARATOR) == text,
{
    lemma_join_split(text, MEDIA_LIST_SEPARATOR);
}

} // verus!
