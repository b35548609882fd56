//! The errors that the use cases name.

use vstd::prelude::*;

verus! {

/// The errors that the use cases name.
#[derive(Debug, Clone)]
pub enum Errors {
    /// No user goes by the given name.
    UserNotFound(String),
    /// The given user has no media list.
    UserNoMedia(String),
    /// Something else went wrong; the text says what.
    Unknown(String),
}

/// The message of the error `e`.
pub open spec fn errors_message(e: Errors) -> Seq<char> {
    match e {
        Errors::UserNotFound(name) => "user `"@ + name@ + "` not found"@,
        Errors::UserNoMedia(name) => "user `"@ + name@ + "` has no media"@,
        Errors::Unknown(what) => "unknown error: `"@ + what@ + "`"@,
    }
}

impl Errors {
    /// The message of this error.
    pub fn message(&self) -> (m: String)
        ensures
            m@ == errors_message(*self),
    {
        match self {
            Errors::UserNotFound(name) => String::from_str("user `").concat(name.as_str()).concat(
                "` not found",
            ),
            Errors::UserNoMedia(name) => String::from_str("user `").concat(name.as_str()).concat(
                "` has no media",
            ),
            Errors::Unknown(what) => String::from_str("unknown error: `").concat(what.as_str()).concat(
                "`",
            ),
        }
    }
}

} // verus!
