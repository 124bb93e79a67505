//! What can go wrong.

use vstd::prelude::*;

verus! {

/// The failures of a run.
#[derive(Debug, PartialEq, Eq)]
pub enum ScrobbleError {
    /// The network, the connection or a timeout failed a call.
    Transport(String),
    /// A response body did not have the expected shape.
    Decode(String),
    /// The system clock could not be read.
    Clock,
    /// The configuration cannot be used: the playlist is empty.
    Configuration,
}

impl ScrobbleError {
    /// The failure in words.
    pub open spec fn text(self) -> Seq<char> {
        match self {
            ScrobbleError::Transport(detail) => "transport error: "@ + detail@,
            ScrobbleError::Decode(detail) => "decode error: "@ + detail@,
            ScrobbleError::Clock => "clock error: the system time cannot be read"@,
            ScrobbleError::Configuration => "configuration error: the playlist is empty"@,
        }
    }

    /// Puts the failure in words.
    pub fn describe(&self) -> (text: String)
        ensures
            text@ == self.text(),
    {
        match self {
            ScrobbleError::Transport(detail) => {
                let mut text: String = String::from_str("transport error: ");
                text.append(detail.as_str());
                text
            },
            ScrobbleError::Decode(detail) => {
                let mut text: String = String::from_str("decode error: ");
                text.append(detail.as_str());
                text
            },
            ScrobbleError::Clock => String::from_str("clock error: the system time cannot be read"),
            ScrobbleError::Configuration => String::from_str(
                "configuration error: the playlist is empty",
            ),
        }
    }
}

} // verus!
