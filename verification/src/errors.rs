//! The errors that handling a frame can report.

use vstd::prelude::*;

verus! {

/// What can go wrong with one received frame. None of these changes any
/// state: the frame is simply not applied.
#[derive(Debug, Clone, Copy, PartialEq, Eq, Structural)]
pub enum Error {
    /// The start-of-frame flag is not the one that the transfer expects.
    InvalidGetResponseSofFlag,
    /// The toggle flag is not the one that the transfer expects.
    InvalidGetResponseToggleFlag,
    /// The end-of-frame flag is not the one that the transfer expects.
    InvalidGetResponseEofFlag,
    /// No object entry of the network has the frame's server and entry
    /// identifiers.
    InvalidGetResponseServerOrObjectEntryNotFound,
    /// An enum field holds a number that no variant of its type stands for.
    UnknownEnumValue,
}

impl Error {
    /// The words that describe the error.
    pub open spec fn description(self) -> Seq<char> {
        match self {
            Error::InvalidGetResponseSofFlag => "invalid get response: unexpected sof flag"@,
            Error::InvalidGetResponseToggleFlag => "invalid get response: unexpected toggle flag"@,
            Error::InvalidGetResponseEofFlag => "invalid get response: unexpected eof flag"@,
            Error::InvalidGetResponseServerOrObjectEntryNotFound => "invalid get response: server or object entry not found"@,
            Error::UnknownEnumValue => "unknown enum value"@,
        }
    }

    /// A short description of the error.
    pub fn message(&self) -> (text: String)
        ensures
            text@ == self.description(),
    {
        match self {
            Error::InvalidGetResponseSofFlag => "invalid get response: unexpected sof flag".to_owned(),
            Error::InvalidGetResponseToggleFlag => "invalid get response: unexpected toggle flag".to_owned(),
            Error::InvalidGetResponseEofFlag => "invalid get response: unexpected eof flag".to_owned(),
            Error::InvalidGetResponseServerOrObjectEntryNotFound => "invalid get response: server or object entry not found".to_owned(),
            Error::UnknownEnumValue => "unknown enum value".to_owned(),
        }
    }
}

} // verus!
