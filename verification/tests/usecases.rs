use std::cell::RefCell;
use std::collections::HashMap;

use anilistarr_rs::adapters::mappers::{Memory as MemoryMapper, Persistent};
use anilistarr_rs::adapters::trackers::CachedTracker;
use anilistarr_rs::drivers::providers::anilist::{AnilistData, Fribbs};
use anilistarr_rs::drivers::providers::Entry;
use anilistarr_rs::drivers::trackers::Memory as MemoryTracker;
use anilistarr_rs::entities::{CustomEntry, Media};
use anilistarr_rs::usecases::{
    Cache, CacheOptions, Errors, Getter, MediaLister, Mapper, Metadata, Provider, Store, Tracker,
    TrackerMediaLister,
};
use anilistarr_rs::Error;

fn strings(items: &[&str]) -> Vec<String> {
    items.iter().map(|s| s.to_string()).collect()
}

/// A cache in memory that records what it is handed.
#[derive(Default)]
struct TestCache {
    values: RefCell<HashMap<String, String>>,
    writes: RefCell<Vec<(String, String)>>,
}

impl Cache for TestCache {
    fn get_string(&self, key: String) -> Result<String, Error> {
        self.values
            .borrow()
            .get(&key)
            .cloned()
            .ok_or(Error::Other("value not cached".to_owned()))
    }

    fn set_string(&self, key: String, value: String, _options: Option<CacheOptions>) -> Result<(), Error> {
        self.writes.borrow_mut().push((key.clone(), value.clone()));
        self.values.borrow_mut().insert(key, value);
        Ok(())
    }
}

fn memory_tracker() -> MemoryTracker {
    let mut tracker = MemoryTracker::new();
    tracker.user_ids.insert("test".to_owned(), 1234);
    tracker.media_lists.insert(1234, strings(&["1", "2", "3"]));
    tracker.user_ids.insert("nolist".to_owned(), 99);
    tracker
}

fn memory_mapper() -> MemoryMapper {
    let mut mapper = MemoryMapper::new();
    mapper.mapping.insert("1".to_owned(), "91".to_owned());
    mapper.mapping.insert("2".to_owned(), "not-a-number".to_owned());
    mapper.mapping.insert("3".to_owned(), "93".to_owned());
    mapper
}

#[derive(Default)]
struct NoGetter;

impl Getter for NoGetter {
    fn get(&self, _uri: &str) -> Result<Vec<u8>, Error> {
        Ok(Vec::new())
    }
}

#[test]
fn memory_tracker_user_ids() {
    let tracker = memory_tracker();
    assert_eq!(tracker.get_user_id("test").unwrap(), "1234");
    let err = tracker.get_user_id("nobody").unwrap_err();
    assert!(matches!(&err, Error::Usecase(Errors::UserNotFound(n)) if n == "nobody"));
    assert_eq!(err.message(), "user `nobody` not found");
}

#[test]
fn memory_tracker_media_lists() {
    let tracker = memory_tracker();
    assert_eq!(tracker.get_media_list_ids("1234").unwrap(), strings(&["1", "2", "3"]));
    assert_eq!(tracker.get_media_list_ids("+1234").unwrap(), strings(&["1", "2", "3"]));
    let err = tracker.get_media_list_ids("99").unwrap_err();
    assert_eq!(err.message(), "user `99` has no media");
    let err = tracker.get_media_list_ids("abc").unwrap_err();
    assert!(matches!(&err, Error::Usecase(Errors::Unknown(_))));
    assert_eq!(err.message(), "unknown error: `invalid digit found in string`");
    let err = tracker.get_media_list_ids("4294967296").unwrap_err();
    assert_eq!(err.message(), "unknown error: `number too large to fit in target type`");
}

#[test]
fn memory_tracker_user_id_reads_back() {
    let tracker = memory_tracker();
    let id = tracker.get_user_id("test").unwrap();
    assert_eq!(tracker.get_media_list_ids(&id).unwrap(), strings(&["1", "2", "3"]));
    let id = tracker.get_user_id("nolist").unwrap();
    assert_eq!(tracker.get_media_list_ids(&id).unwrap_err().message(), "user `99` has no media");
}

#[test]
fn memory_mapper_keeps_order_and_drops_unknown() {
    let mapper = memory_mapper();
    let ids = strings(&["3", "4", "1", "1"]);
    assert_eq!(mapper.map_ids(&ids).unwrap(), strings(&["93", "91", "91"]));
    assert_eq!(mapper.map_ids(&[]).unwrap(), strings(&[]));
    assert!(mapper.refresh(&NoGetter).is_ok());
}

#[test]
fn generate_maps_and_parses_ids() {
    let lister = TrackerMediaLister::new(memory_tracker(), memory_mapper());
    let list = lister.generate("test").unwrap();
    assert_eq!(list, vec![CustomEntry { tvdb_id: 91 }, CustomEntry { tvdb_id: 93 }]);
    assert_eq!(lister.get_user_id("test").unwrap(), "1234");
    assert!(lister.refresh(&NoGetter).is_ok());
}

#[test]
fn generate_passes_errors_on() {
    let lister = TrackerMediaLister::new(memory_tracker(), memory_mapper());
    assert_eq!(lister.generate("nobody").unwrap_err().message(), "user `nobody` not found");
    assert_eq!(lister.generate("nolist").unwrap_err().message(), "user `99` has no media");
    assert_eq!(lister.get_user_id("nobody").unwrap_err().message(), "user `nobody` not found");
}

#[test]
fn cached_tracker_miss_then_hit() {
    let cache = TestCache::default();
    let tracker = CachedTracker::new(cache, memory_tracker());
    assert_eq!(tracker.get_user_id("test").unwrap(), "1234");
    assert_eq!(tracker.get_media_list_ids("1234").unwrap(), strings(&["1", "2", "3"]));
    // Second time round the answers come from the cache.
    assert_eq!(tracker.get_user_id("test").unwrap(), "1234");
    assert_eq!(tracker.get_media_list_ids("1234").unwrap(), strings(&["1", "2", "3"]));
}

impl Cache for &TestCache {
    fn get_string(&self, key: String) -> Result<String, Error> {
        (**self).get_string(key)
    }

    fn set_string(&self, key: String, value: String, options: Option<CacheOptions>) -> Result<(), Error> {
        (**self).set_string(key, value, options)
    }
}

#[test]
fn cached_tracker_writes_keys_and_joined_lists() {
    let cache = TestCache::default();
    let tracker = CachedTracker::new(&cache, memory_tracker());
    tracker.get_user_id("test").unwrap();
    tracker.get_media_list_ids("1234").unwrap();
    assert!(tracker.get_user_id("nobody").is_err());
    assert_eq!(
        *cache.writes.borrow(),
        vec![
            ("anilist:user:test:id".to_owned(), "1234".to_owned()),
            ("anilist:user:1234:medias".to_owned(), "1|2|3".to_owned()),
        ]
    );
    // Hits write nothing more.
    tracker.get_user_id("test").unwrap();
    tracker.get_media_list_ids("1234").unwrap();
    assert_eq!(cache.writes.borrow().len(), 2);
}

#[test]
fn cached_tracker_reads_what_the_cache_holds() {
    let cache = TestCache::default();
    cache
        .values
        .borrow_mut()
        .insert("anilist:user:5:medias".to_owned(), "7|8||9".to_owned());
    cache.values.borrow_mut().insert("anilist:user:x:id".to_owned(), "5".to_owned());
    cache.values.borrow_mut().insert("anilist:user:6:medias".to_owned(), "".to_owned());
    let tracker = CachedTracker::new(cache, MemoryTracker::new());
    assert_eq!(tracker.get_user_id("x").unwrap(), "5");
    assert_eq!(tracker.get_media_list_ids("5").unwrap(), strings(&["7", "8", "", "9"]));
    // A cached empty list reads back as one empty ID.
    assert_eq!(tracker.get_media_list_ids("6").unwrap(), strings(&[""]));
}

#[test]
fn cached_tracker_in_a_lister() {
    let cache = TestCache::default();
    let tracker = CachedTracker::new(&cache, memory_tracker());
    let lister = TrackerMediaLister::new(tracker, memory_mapper());
    assert_eq!(lister.generate("test").unwrap(), vec![CustomEntry { tvdb_id: 91 }, CustomEntry { tvdb_id: 93 }]);
    assert_eq!(lister.generate("test").unwrap(), vec![CustomEntry { tvdb_id: 91 }, CustomEntry { tvdb_id: 93 }]);
    assert_eq!(cache.writes.borrow().len(), 2);
}

/// A provider that hands out fixed entries.
struct TestProvider(Vec<AnilistData>);

impl Provider<Entry> for TestProvider {
    fn fetch<G: Getter>(&self, _client: &G) -> Result<Vec<Entry>, Error> {
        Ok(Fribbs::entries(self.0.clone()))
    }
}

/// A store in memory.
#[derive(Default)]
struct TestStore(RefCell<HashMap<String, String>>);

impl Store for TestStore {
    fn get_media(&self, id: String) -> Result<Media, Error> {
        let target_id = self.0.borrow().get(&id).cloned().ok_or(Error::Other("MDB_NOTFOUND".to_owned()))?;
        Ok(Media { source_id: id, target_id })
    }

    fn get_media_bulk(&self, ids: Vec<String>) -> Result<Vec<Media>, Error> {
        Ok(ids
            .into_iter()
            .filter_map(|id| self.0.borrow().get(&id).cloned().map(|t| Media { source_id: id, target_id: t }))
            .collect())
    }

    fn put_media(&self, media: Media) -> Result<(), Error> {
        self.0.borrow_mut().insert(media.source_id, media.target_id);
        Ok(())
    }

    fn put_media_bulk(&self, medias: Vec<Media>) -> Result<(), Error> {
        for media in medias {
            self.put_media(media)?;
        }
        Ok(())
    }
}

#[test]
fn persistent_mapper_refresh_then_map() {
    let provider = TestProvider(vec![
        AnilistData { anilist_id: Some(1), thetvdb_id: Some(91) },
        AnilistData { anilist_id: None, thetvdb_id: Some(92) },
        AnilistData { anilist_id: Some(3), thetvdb_id: None },
        AnilistData { anilist_id: Some(4), thetvdb_id: Some(94) },
    ]);
    let mapper = Persistent::new(provider, TestStore::default());
    assert_eq!(mapper.map_ids(&strings(&["1", "4"])).unwrap(), strings(&[]));
    mapper.refresh(&NoGetter).unwrap();
    assert_eq!(mapper.map_ids(&strings(&["4", "2", "1", "3"])).unwrap(), strings(&["94", "91"]));
}

#[test]
fn persistent_pipeline_reads_tvdb_ids_back() {
    let provider = TestProvider(vec![
        AnilistData { anilist_id: Some(1), thetvdb_id: Some(18446744073709551615) },
        AnilistData { anilist_id: Some(2), thetvdb_id: Some(0) },
    ]);
    let mapper = Persistent::new(provider, TestStore::default());
    mapper.refresh(&NoGetter).unwrap();
    let mut tracker = MemoryTracker::new();
    tracker.user_ids.insert("u".to_owned(), 1);
    tracker.media_lists.insert(1, strings(&["2", "1"]));
    let lister = TrackerMediaLister::new(tracker, mapper);
    assert_eq!(
        lister.generate("u").unwrap(),
        vec![CustomEntry { tvdb_id: 0 }, CustomEntry { tvdb_id: u64::MAX }]
    );
}

#[test]
fn entries_keep_records_with_both_ids() {
    let entry = Entry::try_from(AnilistData { anilist_id: Some(21), thetvdb_id: Some(81797) }).unwrap();
    assert_eq!(entry.source_id(), "21");
    assert_eq!(entry.target_id(), "81797");
    let media = Media::from(entry);
    assert_eq!(media.source_id, "21");
    assert_eq!(media.target_id, "81797");
    let err = Entry::try_from(AnilistData { anilist_id: None, thetvdb_id: None }).unwrap_err();
    assert_eq!(err.message(), "unknown error: `no anilist id`");
    let err = Entry::try_from(AnilistData { anilist_id: Some(1), thetvdb_id: None }).unwrap_err();
    assert_eq!(err.message(), "unknown error: `no tvdb id`");
    let entries = Fribbs::entries(vec![
        AnilistData { anilist_id: Some(1), thetvdb_id: None },
        AnilistData { anilist_id: Some(2), thetvdb_id: Some(3) },
    ]);
    assert_eq!(entries.len(), 1);
    assert_eq!(entries[0].target_id(), "3");
}
