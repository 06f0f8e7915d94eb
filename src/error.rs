//! Errors reported by the relay.
use vstd::prelude::*;
use vstd::string::StringExecFns;

verus! {

/// The relay's error kinds.
#[derive(Debug)]
pub enum RelayError {
    /// A subscription identifier was longer than allowed.
    SubIdMaxLengthError,
    /// A connection already holds the most subscriptions it may.
    SubMaxExceededError,
    /// An inbound message exceeded the size limit; it carries the size.
    EventMaxLengthError(usize),
    /// The transport failed.
    ConnError,
    /// The data directory does not exist.
    DatabaseDirError,
    /// The store's schema version is newer than this relay knows.
    DatabaseVersionError(usize),
    /// An event whose hash or author is not hex, or whose kind the store
    /// cannot hold.
    EventMalformed,
    /// The store reported an error.
    SqlError(rusqlite::Error),
}

/// The human-readable text of an error kind that has a fixed message.
pub open spec fn fixed_message(e: RelayError) -> Option<Seq<char>> {
    match e {
        RelayError::SubIdMaxLengthError => Some("Subscription identifier max length exceeded"@),
        RelayError::SubMaxExceededError => Some("Maximum concurrent subscription count reached"@),
        RelayError::EventMaxLengthError(_) => Some("event exceeded max size"@),
        RelayError::ConnError => Some("Connection error"@),
        RelayError::DatabaseDirError => Some("Database directory does not exist"@),
        RelayError::DatabaseVersionError(_) => Some("Database version is newer than supported"@),
        RelayError::EventMalformed => Some("event is malformed"@),
        RelayError::SqlError(_) => None,
    }
}

impl RelayError {
    /// A message for the error, suitable for a client notice.
    pub fn message(&self) -> (r: String)
        ensures
            fixed_message(*self) matches Some(m) ==> r@ == m,
            fixed_message(*self) is None ==> r@ == "SQL error"@,
    {
        match self {
            RelayError::SubIdMaxLengthError => String::from_str("Subscription identifier max length exceeded"),
            RelayError::SubMaxExceededError => String::from_str("Maximum concurrent subscription count reached"),
            RelayError::EventMaxLengthError(_) => String::from_str("event exceeded max size"),
            RelayError::ConnError => String::from_str("Connection error"),
            RelayError::DatabaseDirError => String::from_str("Database directory does not exist"),
            RelayError::DatabaseVersionError(_) => String::from_str("Database version is newer than supported"),
            RelayError::EventMalformed => String::from_str("event is malformed"),
            RelayError::SqlError(_) => String::from_str("SQL error"),
        }
    }
}

} // verus!
