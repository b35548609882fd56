//! A volatile tracker.

use vstd::prelude::*;
use vstd::hash_map::HashMapWithView;
use vstd::hash_map::StringHashMap;
use crate::Error;
use crate::text::decimal;
use crate::text::int_error_message;
use crate::text::lemma_read_decimal;
use crate::text::parse_u32;
use crate::text::read_unsigned;
use crate::text::u32_to_decimal;
use crate::usecases::Errors;
use crate::usecases::Tracker;

verus! {

/// Memory implements a volatile tracker.
pub struct Memory {
    /// The ID of each user, by name.
    pub user_ids: StringHashMap<u32>,
    /// The source IDs of the media that each user watches, by user ID.
    pub media_lists: HashMapWithView<u32, Vec<String>>,
}

impl Memory {
    /// A tracker that knows no users.
    pub fn new() -> (tracker: Memory)
        ensures
            tracker.user_ids@ == Map::<Seq<char>, u32>::empty(),
            tracker.media_lists@ == Map::<u32, Vec<String>>::empty(),
    {
        broadcast use vstd::std_specs::hash::group_hash_axioms;

        Memory { user_ids: StringHashMap::new(), media_lists: HashMapWithView::new() }
    }
}

impl Default for Memory {
    fn default() -> (tracker: Memory)
        ensures
            tracker.user_ids@ == Map::<Seq<char>, u32>::empty(),
            tracker.media_lists@ == Map::<u32, Vec<String>>::empty(),
    {
        Memory::new()
    }
}

/// A copy of each of the strings `items`, in order.
fn copy_strings(items: &Vec<String>) -> (copies: Vec<String>)
    ensures
        copies.deep_view() == items.deep_view(),
{
    let mut copies: Vec<String> = Vec::new();
    let mut i: usize = 0;
    while i < items.len()
        invariant
            i <= items.len(),
            copies.deep_view() == items.deep_view().take(i as int),
        decreases items.len() - i,
    {
        let ghost before = copies.deep_view();
        let copy = items[i].clone();
        copies.push(copy);
        assert(copies.deep_view() =~= before.push(copy@));
        assert(items.deep_view().take(i + 1) =~= items.deep_view().take(i as int).push(copy@));
        i = i + 1;
    }
    assert(items.deep_view().take(items.len() as int) =~= items.deep_view());
    copies
}

impl Tracker for Memory {
    /// The user's ID in decimal where `name` is known; else `UserNotFound`.
    open spec fn user_id_answer(&self, name: Seq<char>, answer: Result<String, Error>) -> bool {
        if self.user_ids@.contains_key(name) {
            answer matches Ok(id) && id@ == decimal(self.user_ids@[name] as nat)
        } else {
            answer matches Err(Error::Usecase(Errors::UserNotFound(n))) && n@ == name
        }
    }

    /// `Unknown` with the reading error's message where `user_id` is no
    /// `u32`; else the user's media list where there is one; else `UserNoMedia`.
    open spec fn media_list_answer(&self, user_id: Seq<char>, answer: Result<Vec<String>, Error>) -> bool {
        match read_unsigned(user_id, u32::MAX as nat) {
            Err(kind) => answer matches Err(Error::Usecase(Errors::Unknown(m))) && m@
                == int_error_message(kind),
            Ok(n) => if self.media_lists@.contains_key(n as u32) {
                answer matches Ok(list) && list.deep_view() == self.media_lists@[n as u32].deep_view()
            } else {
                answer matches Err(Error::Usecase(Errors::UserNoMedia(u))) && u@ == user_id
            },
        }
    }

    fn get_media_list_ids(&self, user_id: &str) -> (answer: Result<Vec<String>, Error>) {
        let parsed = match parse_u32(user_id) {
            Ok(n) => n,
            Err(e) => return Err(Error::Usecase(Errors::Unknown(e.message()))),
        };
        match self.media_lists.get(&parsed) {
            Some(list) => Ok(copy_strings(list)),
            None => Err(Error::Usecase(Errors::UserNoMedia(String::from_str(user_id)))),
        }
    }

    fn get_user_id(&self, name: &str) -> (answer: Result<String, Error>) {
        match self.user_ids.get(name) {
            Some(id) => Ok(u32_to_decimal(*id)),
            None => Err(Error::Usecase(Errors::UserNotFound(String::from_str(name)))),
        }
    }
}

/// The ID that the tracker gives for a user, asked for the user's media
/// list, gives that user's list where there is one, and `UserNoMedia`
/// where there is none.
pub proof fn law_user_id_reads_back(
    tracker: Memory,
    name: Seq<char>,
    id: String,
    answer: Result<Vec<String>, Error>,
)
    requires
        tracker.user_id_answer(name, Ok(id)),
        tracker.media_list_answer(id@, answer),
    ensures
        tracker.user_ids@.contains_key(name),
        tracker.media_lists@.contains_key(tracker.user_ids@[name]) ==> (answer matches Ok(list)
            && list.deep_view() == tracker.media_lists@[tracker.user_ids@[name]].deep_view()),
        !tracker.media_lists@.contains_key(tracker.user_ids@[name]) ==> (answer matches Err(
            Error::Usecase(Errors::UserNoMedia(u)),
        ) && u@ == id@),
{
    let n = tracker.user_ids@[name];
    lemma_read_decimal(n as nat, u32::MAX as nat);
}

} // verus!
