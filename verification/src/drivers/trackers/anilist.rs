//! What the Anilist tracker asks of the Anilist GraphQL API and makes of its
//! replies; the requests themselves go over the network, outside the library.

use vstd::prelude::*;
use crate::Error;
use crate::text::IntErrorKind;
use crate::text::ParseIntError;
use crate::text::i64_to_decimal;
use crate::text::lemma_read_signed_decimal;
use crate::text::parse_i64;
use crate::text::read_signed;
use crate::text::signed_decimal;
use crate::usecases::Errors;

verus! {

/// The page of a watching list that is asked for.
pub const WATCHING_PAGE: i64 = 1;

/// How many entries of a watching list are asked for.
pub const WATCHING_PER_PAGE: i64 = 50;

/// The variables of the query for the watching list of a user.
#[derive(Debug, Clone, Copy, PartialEq, Eq, Structural)]
pub struct WatchingVariables {
    pub user_id: i64,
    pub page: i64,
    pub per_page: i64,
}

/// The reply to the query for a user by name: the user's ID, where a user
/// was found.
#[derive(Debug, Clone, Copy, PartialEq, Eq, Structural)]
pub struct UserData {
    pub user_id: Option<i64>,
}

/// An entry of a watching list: the ID of its media, where it has one.
#[derive(Debug, Clone, Copy, PartialEq, Eq, Structural)]
pub struct WatchingEntry {
    pub media_id: Option<i64>,
}

/// A page of a watching list: its entries, where it has a list.
#[derive(Debug, Clone)]
pub struct WatchingPage {
    pub media_list: Option<Vec<Option<WatchingEntry>>>,
}

/// The reply to the query for a watching list: its page, where there is one.
#[derive(Debug, Clone)]
pub struct WatchingData {
    pub page: Option<WatchingPage>,
}

/// The error of a reply that holds no data.
pub open spec fn is_no_data_error(e: Error) -> bool {
    e matches Error::Usecase(Errors::UserNoMedia(what)) && what@ == "FAIL"@
}

/// The variables of the query for the watching list of the user `user_id`:
/// the ID read as an `i64`, the first page, fifty entries.
pub fn watching_variables(user_id: &str) -> (variables: Result<WatchingVariables, Error>)
    ensures
        match read_signed(user_id@, i64::MAX as nat) {
            Ok(id) => variables == Ok::<WatchingVariables, Error>(
                WatchingVariables { user_id: id as i64, page: 1, per_page: 50 },
            ),
            Err(kind) => variables matches Err(Error::ParseInt(e)) && e == ParseIntError { kind },
        },
{
    match parse_i64(user_id) {
        Ok(id) => Ok(WatchingVariables { user_id: id, page: WATCHING_PAGE, per_page: WATCHING_PER_PAGE }),
        Err(e) => Err(Error::ParseInt(e)),
    }
}

/// The user ID in a reply to the query for a user: an error where the reply
/// holds no data, or no user.
pub fn user_id_from_reply(data: Option<UserData>) -> (id: Result<String, Error>)
    ensures
        match data {
            None => id matches Err(e) && is_no_data_error(e),
            Some(UserData { user_id: None }) => id matches Err(Error::Other(what)) && what@
                == "no user data"@,
            Some(UserData { user_id: Some(n) }) => id matches Ok(s) && s@ == signed_decimal(n as int),
        },
{
    match data {
        None => Err(Error::Usecase(Errors::UserNoMedia(String::from_str("FAIL")))),
        Some(user) => match user.user_id {
            None => Err(Error::Other(String::from_str("no user data"))),
            Some(n) => Ok(i64_to_decimal(n)),
        },
    }
}

/// The media IDs of the entries `entries` that have a media, in decimal, in order.
pub open spec fn media_ids_of(entries: Seq<Option<WatchingEntry>>) -> Seq<Seq<char>>
    decreases entries.len(),
{
    if entries.len() == 0 {
        Seq::<Seq<char>>::empty()
    } else {
        let rest = media_ids_of(entries.drop_last());
        match entries.last() {
            Some(WatchingEntry { media_id: Some(n) }) => rest.push(signed_decimal(n as int)),
            _ => rest,
        }
    }
}

/// The media IDs in a reply to the query for a watching list: an error
/// where the reply holds no data; none where it has no page or the page no
/// list; else those of the entries that have a media, in order.
pub fn media_ids_from_reply(data: Option<WatchingData>) -> (ids: Result<Vec<String>, Error>)
    ensures
        match data {
            None => ids matches Err(e) && is_no_data_error(e),
            Some(WatchingData { page: None }) => ids matches Ok(list) && list@.len() == 0,
            Some(WatchingData { page: Some(WatchingPage { media_list: None }) }) => ids matches Ok(
                list,
            ) && list@.len() == 0,
            Some(WatchingData { page: Some(WatchingPage { media_list: Some(entries) }) }) => ids matches Ok(
                list,
            ) && list.deep_view() == media_ids_of(entries@) && list.deep_view() == entries@.filter_map(
                |e: Option<WatchingEntry>| entry_media_id(e),
            ),
        },
{

    let data = match data {
        None => return Err(Error::Usecase(Errors::UserNoMedia(String::from_str("FAIL")))),
        Some(data) => data,
    };
    let page = match data.page {
        None => return Ok(Vec::new()),
        Some(page) => page,
    };
    let entries = match page.media_list {
        None => return Ok(Vec::new()),
        Some(entries) => entries,
    };
    proof {
        law_media_ids_keep_each_media(entries@);
    }
    let mut ids: Vec<String> = Vec::new();
    let mut i: usize = 0;
    while i < entries.len()
        invariant
            i <= entries.len(),
            ids.deep_view() == media_ids_of(entries@.take(i as int)),
        decreases entries.len() - i,
    {
        assert(entries@.take(i + 1).drop_last() =~= entries@.take(i as int));
        match entries[i] {
            Some(WatchingEntry { media_id: Some(n) }) => {
                let ghost before = ids.deep_view();
                let id = i64_to_decimal(n);
                ids.push(id);
                assert(ids.deep_view() =~= before.push(id@));
            },
            _ => {},
        }
        i = i + 1;
    }
    assert(entries@.take(entries.len() as int) =~= entries@);
    Ok(ids)
}

/// The media ID of an entry that has a media, in decimal.
pub open spec fn entry_media_id(entry: Option<WatchingEntry>) -> Option<Seq<char>> {
    match entry {
        Some(e) => match e.media_id {
            Some(n) => Some(signed_decimal(n as int)),
            None => None,
        },
        None => None,
    }
}

/// The media IDs read out of a list are those of its entries that have a
/// media, each in decimal, one per such entry, in order.
pub proof fn law_media_ids_keep_each_media(entries: Seq<Option<WatchingEntry>>)
    ensures
        media_ids_of(entries) == entries.filter_map(|e: Option<WatchingEntry>| entry_media_id(e)),
    decreases entries.len(),
{
    if entries.len() > 0 {
        law_media_ids_keep_each_media(entries.drop_last());
        let rest = entries.drop_last().filter_map(|e: Option<WatchingEntry>| entry_media_id(e));
        match entry_media_id(entries.last()) {
            Some(id) => {
                assert(rest.push(id) =~= rest + seq![id]);
            },
            None => {},
        }
    }
}

/// An entry appended to a list adds its media ID at the end where it has a
/// media, and nothing where it has none.
pub proof fn law_media_ids_push(entries: Seq<Option<WatchingEntry>>, entry: Option<WatchingEntry>)
    ensures
        media_ids_of(entries.push(entry)) == match entry_media_id(entry) {
            Some(id) => media_ids_of(entries).push(id),
            None => media_ids_of(entries),
        },
{
    assert(entries.push(entry).drop_last() =~= entries);
}

/// The user ID that a reply gives, made into the variables of the query for
/// the user's watching list, is that same ID.
pub proof fn law_user_id_reads_back(user_id: i64)
    ensures
        read_signed(signed_decimal(user_id as int), i64::MAX as nat) == Ok::<int, IntErrorKind>(
            user_id as int,
        ),
{
    lemma_read_signed_decimal(user_id as int, i64::MAX as nat);
}

} // verus!
