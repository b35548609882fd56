//! A store of text by key, that may forget.

use vstd::prelude::*;
use crate::Error;

verus! {

/// How long a cached value should be kept.
#[derive(Default, Debug)]
pub struct CacheOptions {
    pub ttl: std::time::Duration,
}

/// A store of text by key, that may forget.
pub trait Cache {
    /// Holds of each answer that `get_string` may give for `key`.
    /// An implementation that leaves it as it is promises nothing of its answers.
    open spec fn get_answer(&self, key: Seq<char>, answer: Result<String, Error>) -> bool {
        true
    }

    /// Holds of each answer that `set_string` may give for `key`, `value`
    /// and `options`.
    /// An implementation that leaves it as it is promises nothing of its answers.
    open spec fn set_answer(
        &self,
        key: Seq<char>,
        value: Seq<char>,
        options: Option<CacheOptions>,
        answer: Result<(), Error>,
    ) -> bool {
        true
    }

    /// The text kept under `key`.
    fn get_string(&self, key: String) -> (answer: Result<String, Error>)
        ensures
            self.get_answer(key@, answer),
    ;

    /// Keeps `value` under `key`.
    fn set_string(&self, key: String, value: String, options: Option<CacheOptions>) -> (answer:
        Result<(), Error>)
        ensures
            self.set_answer(key@, value@, options, answer),
    ;
}

} // verus!
