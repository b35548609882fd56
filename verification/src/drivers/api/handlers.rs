//! The replies of the REST API's handlers.

use vstd::prelude::*;
use crate::Error;
use crate::entities::CustomEntry;
use crate::error_message;

verus! {

/// The HTTP status of a success.
pub const STATUS_OK: u16 = 200;

/// The HTTP status of a failure to find a user's ID.
pub const STATUS_INTERNAL_SERVER_ERROR: u16 = 500;

/// The HTTP status of a failure to generate a user's list.
pub const STATUS_BAD_GATEWAY: u16 = 502;

/// A reply: its HTTP status, its headers, its body.
#[derive(Debug, Clone)]
pub struct Reply {
    pub status: u16,
    pub headers: Vec<(String, String)>,
    pub body: String,
}

/// The reply to a request for the ID of the user `name`: on success the ID,
/// also in a header beside the user's name; else a server error with the
/// error's message.
pub fn user_id_reply(name: String, answer: Result<String, Error>) -> (reply: Reply)
    ensures
        match answer {
            Ok(id) => {
                &&& reply.status == 200
                &&& reply.body@ == id@
                &&& reply.headers@.len() == 2
                &&& reply.headers@[0].0@ == "X-Anilist-User-Name"@
                &&& reply.headers@[0].1@ == name@
                &&& reply.headers@[1].0@ == "X-Anilist-User-Id"@
                &&& reply.headers@[1].1@ == id@
            },
            Err(e) => {
                &&& reply.status == 500
                &&& reply.headers@.len() == 0
                &&& reply.body@ == error_message(e)
            },
        },
{
    match answer {
        Err(e) => Reply { status: STATUS_INTERNAL_SERVER_ERROR, headers: Vec::new(), body: e.message() },
        Ok(user_id) => {
            let mut headers: Vec<(String, String)> = Vec::new();
            headers.push((String::from_str("X-Anilist-User-Name"), name));
            headers.push((String::from_str("X-Anilist-User-Id"), user_id.clone()));
            Reply { status: STATUS_OK, headers, body: user_id }
        },
    }
}

/// The reply to a request for the custom list of a user: the list, to be
/// sent as JSON; else a bad-gateway error with the error's message.
pub fn user_media_reply(answer: Result<Vec<CustomEntry>, Error>) -> (reply: Result<
    Vec<CustomEntry>,
    Reply,
>)
    ensures
        match answer {
            Ok(list) => reply == Ok::<Vec<CustomEntry>, Reply>(list),
            Err(e) => reply matches Err(r) && r.status == 502 && r.headers@.len() == 0 && r.body@
                == error_message(e),
        },
{
    match answer {
        Ok(list) => Ok(list),
        Err(e) => Err(Reply { status: STATUS_BAD_GATEWAY, headers: Vec::new(), body: e.message() }),
    }
}

} // verus!
