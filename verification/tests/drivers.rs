use anilistarr_rs::drivers::api::handlers::{user_id_reply, user_media_reply};
use anilistarr_rs::drivers::api::limits::{limit_decision, LimitDecision};
use anilistarr_rs::drivers::caches::{cached_text, cached_value};
use anilistarr_rs::drivers::stores::{medias_from_lookups, put_result, Lookup, PutStatus};
use anilistarr_rs::drivers::trackers::anilist::{
    media_ids_from_reply, user_id_from_reply, watching_variables, UserData, WatchingData,
    WatchingEntry, WatchingPage,
};
use anilistarr_rs::entities::CustomEntry;
use anilistarr_rs::text::{IntErrorKind, ParseIntError};
use anilistarr_rs::usecases::Errors;
use anilistarr_rs::{Error, NotImplementedError};

fn strings(items: &[&str]) -> Vec<String> {
    items.iter().map(|s| s.to_string()).collect()
}

#[test]
fn error_messages() {
    assert_eq!(Errors::UserNotFound("bob".to_owned()).message(), "user `bob` not found");
    assert_eq!(Errors::UserNoMedia("7".to_owned()).message(), "user `7` has no media");
    assert_eq!(Errors::Unknown("boom".to_owned()).message(), "unknown error: `boom`");
    assert_eq!(NotImplementedError("export").message(), "export: not implemented");
    assert_eq!(Error::NotImplemented(NotImplementedError("x")).message(), "x: not implemented");
    assert_eq!(Error::Other("disk full".to_owned()).message(), "disk full");
    assert_eq!(
        Error::ParseInt(ParseIntError { kind: IntErrorKind::Empty }).message(),
        "cannot parse integer from empty string"
    );
}

#[test]
fn watching_variables_read_the_user_id() {
    let v = watching_variables("5467").unwrap();
    assert_eq!((v.user_id, v.page, v.per_page), (5467, 1, 50));
    assert_eq!(watching_variables("-3").unwrap().user_id, -3);
    let err = watching_variables("abc").unwrap_err();
    assert!(matches!(err, Error::ParseInt(ParseIntError { kind: IntErrorKind::InvalidDigit })));
    assert_eq!(err.message(), "invalid digit found in string");
}

#[test]
fn user_id_replies() {
    assert_eq!(user_id_from_reply(Some(UserData { user_id: Some(5467) })).unwrap(), "5467");
    let err = user_id_from_reply(Some(UserData { user_id: None })).unwrap_err();
    assert_eq!(err.message(), "no user data");
    let err = user_id_from_reply(None).unwrap_err();
    assert!(matches!(&err, Error::Usecase(Errors::UserNoMedia(w)) if w == "FAIL"));
    assert_eq!(err.message(), "user `FAIL` has no media");
}

#[test]
fn user_id_reply_reads_back_as_variables() {
    for n in [0i64, 1, 5467, i64::MAX, -1, i64::MIN] {
        let id = user_id_from_reply(Some(UserData { user_id: Some(n) })).unwrap();
        assert_eq!(watching_variables(&id).unwrap().user_id, n);
    }
}

#[test]
fn media_id_replies() {
    let page = WatchingPage {
        media_list: Some(vec![
            Some(WatchingEntry { media_id: Some(21) }),
            None,
            Some(WatchingEntry { media_id: None }),
            Some(WatchingEntry { media_id: Some(1735) }),
        ]),
    };
    let ids = media_ids_from_reply(Some(WatchingData { page: Some(page) })).unwrap();
    assert_eq!(ids, strings(&["21", "1735"]));
    let none = media_ids_from_reply(Some(WatchingData { page: None })).unwrap();
    assert!(none.is_empty());
    let no_list = media_ids_from_reply(Some(WatchingData { page: Some(WatchingPage { media_list: None }) })).unwrap();
    assert!(no_list.is_empty());
    assert_eq!(media_ids_from_reply(None).unwrap_err().message(), "user `FAIL` has no media");
}

#[test]
fn store_lookups_make_medias() {
    let medias = medias_from_lookups(
        strings(&["1", "2", "3"]),
        vec![Lookup::Found(b"91".to_vec()), Lookup::Missing, Lookup::Found(b"93".to_vec())],
    )
    .unwrap();
    let pairs: Vec<(String, String)> = medias.into_iter().map(|m| (m.source_id, m.target_id)).collect();
    assert_eq!(pairs, vec![("1".to_owned(), "91".to_owned()), ("3".to_owned(), "93".to_owned())]);
}

#[test]
fn store_lookups_stop_at_the_first_failure() {
    let err = medias_from_lookups(
        strings(&["1", "2", "3"]),
        vec![
            Lookup::Found(b"91".to_vec()),
            Lookup::Failed("first".to_owned()),
            Lookup::Failed("second".to_owned()),
        ],
    )
    .unwrap_err();
    assert_eq!(err.message(), "first");
}

#[test]
fn store_lookups_read_invalid_text_lossily() {
    let medias = medias_from_lookups(strings(&["1"]), vec![Lookup::Found(vec![b'9', 0xff, b'1'])]).unwrap();
    assert_eq!(medias[0].target_id, "9\u{FFFD}1");
}

#[test]
fn put_results() {
    assert!(put_result(PutStatus::Stored).is_ok());
    assert!(put_result(PutStatus::KeyExists).is_ok());
    assert_eq!(put_result(PutStatus::Failed("MDB_MAP_FULL".to_owned())).unwrap_err().message(), "MDB_MAP_FULL");
}

#[test]
fn cache_reads() {
    assert_eq!(cached_text(Ok(b"1|2".to_vec())).unwrap(), "1|2");
    assert_eq!(cached_text(Err("MDB_NOTFOUND".to_owned())).unwrap_err().message(), "MDB_NOTFOUND");
    assert_eq!(cached_value(Some("5".to_owned())).unwrap(), "5");
    assert_eq!(cached_value(None).unwrap_err().message(), "unknown error: `value not cached`");
}

#[test]
fn user_id_replies_of_the_api() {
    let reply = user_id_reply("bob".to_owned(), Ok("42".to_owned()));
    assert_eq!(reply.status, 200);
    assert_eq!(reply.body, "42");
    assert_eq!(
        reply.headers,
        vec![
            ("X-Anilist-User-Name".to_owned(), "bob".to_owned()),
            ("X-Anilist-User-Id".to_owned(), "42".to_owned()),
        ]
    );
    let reply = user_id_reply("bob".to_owned(), Err(Error::Usecase(Errors::UserNotFound("bob".to_owned()))));
    assert_eq!(reply.status, 500);
    assert!(reply.headers.is_empty());
    assert_eq!(reply.body, "user `bob` not found");
}

#[test]
fn user_media_replies_of_the_api() {
    let list = vec![CustomEntry { tvdb_id: 1 }];
    assert_eq!(user_media_reply(Ok(list.clone())).unwrap(), list);
    let reply = user_media_reply(Err(Error::Other("down".to_owned()))).unwrap_err();
    assert_eq!(reply.status, 502);
    assert_eq!(reply.body, "down");
}

#[test]
fn limiter_decisions() {
    assert_eq!(limit_decision(Ok(None)), LimitDecision::Forward);
    assert_eq!(
        limit_decision(Ok(Some(7))),
        LimitDecision::Reject { status: 429, retry_after_secs: Some(7) }
    );
    assert_eq!(limit_decision(Err(())), LimitDecision::Reject { status: 500, retry_after_secs: None });
}

#[test]
fn written_text_reads_back_from_the_store_and_cache() {
    let texts = ["91", "é|ü", "日本", ""];
    let medias = medias_from_lookups(
        strings(&["1", "2", "3", "4"]),
        texts.iter().map(|t| Lookup::Found(t.as_bytes().to_vec())).collect(),
    )
    .unwrap();
    let read: Vec<String> = medias.iter().map(|m| m.target_id.clone()).collect();
    assert_eq!(read, strings(&texts));
    for t in texts {
        assert_eq!(cached_text(Ok(t.as_bytes().to_vec())).unwrap(), t);
    }
}
