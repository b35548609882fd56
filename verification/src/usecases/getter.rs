//! Retrieving data from a URI.

use vstd::prelude::*;
use crate::Error;

verus! {

/// Getter provides a way to retrieve data from a URI.
pub trait Getter {
    /// The data found at `uri`.
    fn get(&self, uri: &str) -> Result<Vec<u8>, Error>;
}

} // verus!
