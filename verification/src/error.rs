//! Why reading API data failed.
use vstd::prelude::*;

use crate::text::NumberError;

verus! {

/// A failure of the library's own processing.
#[derive(Clone, Copy, Debug, PartialEq, Eq, Structural)]
pub enum FetchError {
    /// A dungeon name that the season does not have.
    MissingEntry,
    /// An identifier in a link that is not an unsigned 32-bit decimal number.
    Number(NumberError),
}

impl FetchError {
    /// The description of the failure.
    pub open spec fn text(self) -> Seq<char> {
        match self {
            FetchError::MissingEntry => "Missing entry"@,
            FetchError::Number(e) => e.text(),
        }
    }

    /// The description of the failure.
    pub fn message(&self) -> (m: &'static str)
        ensures
            m@ == self.text(),
    {
        match self {
            FetchError::MissingEntry => "Missing entry",
            FetchError::Number(e) => e.message(),
        }
    }
}

} // verus!
