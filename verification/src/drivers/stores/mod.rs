//! What the LMDB store makes of what it reads and writes; the reading and
//! writing go to disk, outside the library.

use vstd::prelude::*;
use vstd::utf8::decode_utf8;
use vstd::utf8::encode_utf8;
use vstd::utf8::encode_utf8_decode_utf8;
use vstd::utf8::encode_utf8_valid_utf8;
use vstd::utf8::valid_utf8;
use crate::Error;
use crate::entities::Media;
use crate::entities::MediaView;

verus! {

/// The text of `bytes` where invalid UTF-8 sequences are replaced, as std's
/// `String::from_utf8_lossy` makes it.
pub uninterp spec fn utf8_lossy(bytes: Seq<u8>) -> Seq<char>;

/// Reads `bytes` as text by std's `String::from_utf8_lossy`. Its contract
/// names the result, and states what the documentation gives: valid UTF-8
/// is read as the characters it encodes. What replaces invalid sequences is
/// left unsaid.
#[verifier::external_body]
pub(crate) fn decode_lossy(bytes: &[u8]) -> (text: String)
    ensures
        text@ == utf8_lossy(bytes@),
        valid_utf8(bytes@) ==> text@ == decode_utf8(bytes@),
{
    String::from_utf8_lossy(bytes).into_owned()
}

/// The text that the stored bytes `bytes` read as: the characters they
/// encode where they are valid UTF-8, else their lossy reading.
pub open spec fn stored_text(bytes: Seq<u8>) -> Seq<char> {
    if valid_utf8(bytes) {
        decode_utf8(bytes)
    } else {
        utf8_lossy(bytes)
    }
}

/// Text written to the store as its UTF-8 bytes reads back as that text.
pub proof fn law_written_text_reads_back(text: Seq<char>)
    ensures
        stored_text(encode_utf8(text)) == text,
{
    encode_utf8_valid_utf8(text);
    encode_utf8_decode_utf8(text);
}

/// What reading one key of the store gave.
#[derive(Debug, Clone)]
pub enum Lookup {
    /// The value under the key.
    Found(Vec<u8>),
    /// The key is not there.
    Missing,
    /// The read failed; the text says why.
    Failed(String),
}

/// The message of the first failed read among `lookups`, if any failed.
pub open spec fn first_failure(lookups: Seq<Lookup>) -> Option<Seq<char>>
    decreases lookups.len(),
{
    if lookups.len() == 0 {
        None
    } else {
        match lookups[0] {
            Lookup::Failed(why) => Some(why@),
            _ => first_failure(lookups.drop_first()),
        }
    }
}

/// The media items of the keys `ids` that reads `lookups` found, in order:
/// the key as source ID, the value read as text (see `stored_text`) as
/// target ID.
pub open spec fn found_medias(ids: Seq<Seq<char>>, lookups: Seq<Lookup>) -> Seq<MediaView>
    decreases lookups.len(),
{
    if lookups.len() == 0 {
        Seq::<MediaView>::empty()
    } else {
        let rest = found_medias(ids.drop_last(), lookups.drop_last());
        match lookups.last() {
            Lookup::Found(bytes) => rest.push(
                MediaView { source_id: ids.last(), target_id: stored_text(bytes@) },
            ),
            _ => rest,
        }
    }
}

proof fn lemma_first_failure_push(lookups: Seq<Lookup>, next: Lookup)
    ensures
        first_failure(lookups.push(next)) == (match first_failure(lookups) {
            Some(why) => Some(why),
            None => match next {
                Lookup::Failed(why) => Some(why@),
                _ => None,
            },
        }),
    decreases lookups.len(),
{
    if lookups.len() > 0 {
        assert(lookups.push(next).drop_first() =~= lookups.drop_first().push(next));
        assert(lookups.push(next)[0] == lookups[0]);
        lemma_first_failure_push(lookups.drop_first(), next);
    } else {
        assert(lookups.push(next).drop_first() =~= Seq::<Lookup>::empty());
        assert(lookups.push(next)[0] == next);
        assert(first_failure(Seq::<Lookup>::empty()) is None);
    }
}

/// The media items that reading the keys `ids` found, where `lookups` are
/// the reads, one for each key in order: the first failed read's error where
/// one failed; else the found keys with their values as text, in order.
pub fn medias_from_lookups(ids: Vec<String>, lookups: Vec<Lookup>) -> (medias: Result<
    Vec<Media>,
    Error,
>)
    requires
        ids.len() == lookups.len(),
    ensures
        match first_failure(lookups@) {
            Some(why) => medias matches Err(Error::Other(what)) && what@ == why,
            None => medias matches Ok(found) && found@.map_values(|m: Media| m@) == found_medias(
                ids.deep_view(),
                lookups@,
            ),
        },
{
    let mut found: Vec<Media> = Vec::new();
    let mut i: usize = 0;
    while i < lookups.len()
        invariant
            i <= lookups.len(),
            ids.len() == lookups.len(),
            first_failure(lookups@.take(i as int)) is None,
            found@.map_values(|m: Media| m@) == found_medias(
                ids.deep_view().take(i as int),
                lookups@.take(i as int),
            ),
        decreases lookups.len() - i,
    {
        let ghost pre = lookups@.take(i as int);
        proof {
            lemma_first_failure_push(pre, lookups@[i as int]);
            assert(lookups@.take(i + 1) =~= pre.push(lookups@[i as int]));
            assert(lookups@.take(i + 1).drop_last() =~= pre);
            assert(ids.deep_view().take(i + 1).drop_last() =~= ids.deep_view().take(i as int));
        }
        match &lookups[i] {
            Lookup::Found(bytes) => {
                let ghost before = found@.map_values(|m: Media| m@);
                let media = Media { source_id: ids[i].clone(), target_id: decode_lossy(bytes.as_slice()) };
                found.push(media);
                assert(found@.map_values(|m: Media| m@) =~= before.push(media@));
            },
            Lookup::Missing => {},
            Lookup::Failed(why) => {
                proof {
                    lemma_first_failure_of_prefix(lookups@, i as int);
                }
                return Err(Error::Other(why.clone()));
            },
        }
        i = i + 1;
    }
    assert(lookups@.take(lookups.len() as int) =~= lookups@);
    assert(ids.deep_view().take(lookups.len() as int) =~= ids.deep_view());
    Ok(found)
}

proof fn lemma_first_failure_of_prefix(lookups: Seq<Lookup>, i: int)
    requires
        0 <= i < lookups.len(),
        first_failure(lookups.take(i)) is None,
        lookups[i] is Failed,
    ensures
        first_failure(lookups) == Some(lookups[i]->Failed_0@),
    decreases i,
{
    if i > 0 {
        assert(lookups.take(i).drop_first() =~= lookups.drop_first().take(i - 1));
        assert(lookups.take(i)[0] == lookups[0]);
        lemma_first_failure_of_prefix(lookups.drop_first(), i - 1);
    }
}

/// Where each read found the UTF-8 bytes of a text, no read failed and the
/// media items found are the keys with those texts, in order: what was
/// written under the keys reads back as written.
pub proof fn law_written_medias_read_back(
    ids: Seq<Seq<char>>,
    texts: Seq<Seq<char>>,
    lookups: Seq<Lookup>,
)
    requires
        ids.len() == lookups.len(),
        texts.len() == lookups.len(),
        forall|i: int|
            0 <= i < lookups.len() ==> (#[trigger] lookups[i] matches Lookup::Found(bytes)
                && bytes@ == encode_utf8(texts[i])),
    ensures
        first_failure(lookups) is None,
        found_medias(ids, lookups) == Seq::new(
            ids.len(),
            |i: int| MediaView { source_id: ids[i], target_id: texts[i] },
        ),
    decreases lookups.len(),
{
    if lookups.len() > 0 {
        let n = lookups.len() - 1;
        let rest = lookups.drop_first();
        assert forall|i: int| 0 <= i < rest.len() implies (#[trigger] rest[i] matches Lookup::Found(
            bytes,
        ) && bytes@ == encode_utf8(texts.drop_first()[i])) by {
            assert(rest[i] == lookups[i + 1]);
        }
        law_written_medias_read_back(ids.drop_first(), texts.drop_first(), rest);
        assert(lookups[0] is Found);
        law_written_medias_read_back(ids.drop_last(), texts.drop_last(), lookups.drop_last());
        assert(lookups[n] is Found);
        law_written_text_reads_back(texts[n]);
        assert(found_medias(ids, lookups) =~= Seq::new(
            ids.len(),
            |i: int| MediaView { source_id: ids[i], target_id: texts[i] },
        ));
    } else {
        assert(found_medias(ids, lookups) =~= Seq::new(
            ids.len(),
            |i: int| MediaView { source_id: ids[i], target_id: texts[i] },
        ));
    }
}

/// What writing one media item to the store gave.
#[derive(Debug, Clone)]
pub enum PutStatus {
    /// The item was written.
    Stored,
    /// The store already held the item.
    KeyExists,
    /// The write failed; the text says why.
    Failed(String),
}

/// The answer of a write: success where it was written or was there
/// already, else its error.
pub fn put_result(status: PutStatus) -> (answer: Result<(), Error>)
    ensures
        match status {
            PutStatus::Failed(why) => answer matches Err(Error::Other(what)) && what@ == why@,
            _ => answer is Ok,
        },
{
    match status {
        PutStatus::Stored => Ok(()),
        PutStatus::KeyExists => Ok(()),
        PutStatus::Failed(why) => Err(Error::Other(why)),
    }
}

} // verus!
