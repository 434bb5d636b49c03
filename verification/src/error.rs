//! What can go wrong when records or details are fetched.

use vstd::prelude::*;
use vstd::string::StringExecFns;

verus! {

/// The repository call failed.
#[derive(Debug, PartialEq, Eq)]
pub enum FetchError {
    /// The request did not go through; the text says why.
    Network(String),
    /// The response is not of the form that the server sends.
    Malformed,
    /// The response holds no record.
    Empty,
}

/// The repository answered with data that does not make up a record.
#[derive(Clone, Copy, Debug, PartialEq, Eq, Structural)]
pub enum NormalizationError {
    /// A row of the table has fewer than the four cells of a record.
    ShortRow,
    /// A row does not carry the serial of its place in the table.
    SerialOutOfPlace,
    /// An attachment comes without a file name.
    NamelessAttachment,
}

/// Why a fetch brought nothing.
#[derive(Debug, PartialEq, Eq)]
pub enum RepositoryError {
    Fetch(FetchError),
    Normalization(NormalizationError),
}

/// What is shown when the request did not go through, before the reason.
pub const NETWORK_MESSAGE: &'static str = "The request failed: ";

/// What is shown for a response of an unknown form.
pub const MALFORMED_MESSAGE: &'static str = "The server's response could not be read";

/// What is shown for a response without records.
pub const EMPTY_MESSAGE: &'static str = "The server sent no records";

/// What is shown for a row that is too short.
pub const SHORT_ROW_MESSAGE: &'static str = "A row of the table has too few cells";

/// What is shown for a row whose serial is not that of its place.
pub const SERIAL_MESSAGE: &'static str = "A row of the table is out of its place";

/// What is shown for an attachment without a name.
pub const NAMELESS_MESSAGE: &'static str = "An attachment has no file name";

/// An error as plain values: the message that is shown for it.
pub open spec fn message_of(error: RepositoryError) -> Seq<char> {
    match error {
        RepositoryError::Fetch(FetchError::Network(why)) => NETWORK_MESSAGE@ + why@,
        RepositoryError::Fetch(FetchError::Malformed) => MALFORMED_MESSAGE@,
        RepositoryError::Fetch(FetchError::Empty) => EMPTY_MESSAGE@,
        RepositoryError::Normalization(NormalizationError::ShortRow) => SHORT_ROW_MESSAGE@,
        RepositoryError::Normalization(NormalizationError::SerialOutOfPlace) => SERIAL_MESSAGE@,
        RepositoryError::Normalization(NormalizationError::NamelessAttachment) => NAMELESS_MESSAGE@,
    }
}

impl RepositoryError {
    /// The message that is shown for the error.
    pub fn message(&self) -> (message: String)
        ensures
            message@ == message_of(*self),
    {
        match self {
            RepositoryError::Fetch(FetchError::Network(why)) => {
                let mut message = String::from_str(NETWORK_MESSAGE);
                message.append(why.as_str());
                message
            },
            RepositoryError::Fetch(FetchError::Malformed) => String::from_str(MALFORMED_MESSAGE),
            RepositoryError::Fetch(FetchError::Empty) => String::from_str(EMPTY_MESSAGE),
            RepositoryError::Normalization(NormalizationError::ShortRow) => String::from_str(
                SHORT_ROW_MESSAGE,
            ),
            RepositoryError::Normalization(NormalizationError::SerialOutOfPlace) => {
                String::from_str(SERIAL_MESSAGE)
            },
            RepositoryError::Normalization(NormalizationError::NamelessAttachment) => {
                String::from_str(NAMELESS_MESSAGE)
            },
        }
    }
}

} // verus!
