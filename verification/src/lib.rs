//! Converts the watching list of an Anilist user into a custom list of TVDB
//! entries that Sonarr and Radarr read, mapping the IDs through
//! community-provided mappings.

pub mod adapters;
pub mod drivers;
pub mod entities;
pub mod text;
pub mod usecases;

use vstd::prelude::*;
use crate::text::ParseIntError;
use crate::text::int_error_message;
use crate::usecases::Errors;
use crate::usecases::errors_message;

verus! {

/// A feature of the given name that is not there yet.
#[derive(Debug, Default, Clone, Copy)]
pub struct NotImplementedError(pub &'static str);

impl NotImplementedError {
    /// The message of this error: the feature's name, then `: not implemented`.
    pub fn message(&self) -> (m: String)
        ensures
            m@ == self.0@ + ": not implemented"@,
    {
        String::from_str(self.0).concat(": not implemented")
    }
}

/// What a step of the library can fail with.
#[derive(Debug, Clone)]
pub enum Error {
    /// One of the errors that the use cases name.
    Usecase(Errors),
    /// Text that should hold an integer does not.
    ParseInt(ParseIntError),
    /// A feature that is not there yet.
    NotImplemented(NotImplementedError),
    /// An error of something outside the library (a store, a cache, an
    /// upstream service), by its message.
    Other(String),
}

/// The message of the error `e`.
pub open spec fn error_message(e: Error) -> Seq<char> {
    match e {
        Error::Usecase(u) => errors_message(u),
        Error::ParseInt(p) => int_error_message(p.kind),
        Error::NotImplemented(n) => n.0@ + ": not implemented"@,
        Error::Other(m) => m@,
    }
}

impl Error {
    /// The message of this error, as it is shown to a client.
    pub fn message(&self) -> (m: String)
        ensures
            m@ == error_message(*self),
    {
        match self {
            Error::Usecase(u) => u.message(),
            Error::ParseInt(p) => p.message(),
            Error::NotImplemented(n) => n.message(),
            Error::Other(m) => m.clone(),
        }
    }
}

} // verus!
