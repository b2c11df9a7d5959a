use vstd::prelude::*;

verus! {

/// The ways in which a post is refused before any record is written.
#[derive(Clone, Copy, Debug, PartialEq, Eq, Structural)]
pub enum ErrorCode {
    /// The topic holds more than fifty characters.
    TopicTooLong,
    /// The content holds more than two hundred and eighty characters.
    ContentTooLong,
}

impl ErrorCode {
    /// The message shown to the user for this error.
    pub fn msg(&self) -> (r: &'static str)
        ensures
            *self == ErrorCode::TopicTooLong ==> r@
                == "The provided topic should be 50 characters long maximum."@,
            *self == ErrorCode::ContentTooLong ==> r@
                == "The provided content should be 280 characters long maximum."@,
    {
        match self {
            ErrorCode::TopicTooLong => "The provided topic should be 50 characters long maximum.",
            ErrorCode::ContentTooLong => "The provided content should be 280 characters long maximum.",
        }
    }
}

} // verus!
