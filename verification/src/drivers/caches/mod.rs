//! What the caches make of what they read; the reading goes to disk or to a
//! Redis server, outside the library.

use vstd::prelude::*;
use crate::Error;
use crate::drivers::stores::decode_lossy;
use crate::drivers::stores::stored_text;
use crate::usecases::Errors;

verus! {

/// The text of a read of the LMDB cache: the value as text (the characters
/// it encodes where it is valid UTF-8), or the read's error.
pub fn cached_text(read: Result<Vec<u8>, String>) -> (text: Result<String, Error>)
    ensures
        match read {
            Ok(bytes) => text matches Ok(t) && t@ == stored_text(bytes@),
            Err(why) => text matches Err(Error::Other(what)) && what@ == why@,
        },
{
    match read {
        Ok(bytes) => Ok(decode_lossy(bytes.as_slice())),
        Err(why) => Err(Error::Other(why)),
    }
}

/// The text of a read of the Redis cache: the value, or an `Unknown` error
/// where the key holds none.
pub fn cached_value(value: Option<String>) -> (text: Result<String, Error>)
    ensures
        match value {
            Some(v) => text == Ok::<String, Error>(v),
            None => text matches Err(Error::Usecase(Errors::Unknown(what))) && what@
                == "value not cached"@,
        },
{
    match value {
        Some(v) => Ok(v),
        None => Err(Error::Usecase(Errors::Unknown(String::from_str("value not cached")))),
    }
}

} // verus!
