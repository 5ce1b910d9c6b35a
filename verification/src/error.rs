//! The ways in which a command of the pattern store can fail.

use vstd::prelude::*;
use vstd::string::StringExecFns;

verus! {

/// A failure that ends the command it arises in.
#[derive(Debug, Clone, PartialEq, Eq)]
pub enum GfrError {
    /// No record is stored under the name; carries where it was looked for.
    NotFound(String),
    /// A stored record does not parse, or has not exactly one regex source;
    /// carries where it was read from, and why it was refused.
    InvalidFormat(String, String),
    /// A pattern name was given together with a tag or author filter.
    ConflictingFilters,
    /// Neither a pattern name nor a tag or author filter was given.
    NoFilterSpecified,
    /// The filters retained no record.
    NoMatches,
    /// A record has neither a single regex nor a non-empty regex list, or has both.
    MissingRegex,
    /// The combined expression is not accepted by the regex engine; carries
    /// the engine's explanation.
    CompileFailure(String),
    /// An entry of the remote index declares a version that is no semantic
    /// version; carries the entry's name and the declared version.
    MalformedRemoteVersion(String, String),
    /// A fetched pattern body is no well-formed record; carries the entry's
    /// name, and why the body was refused.
    RemoteValidationFailure(String, String),
    /// A record is already stored under the name.
    AlreadyExists(String),
    /// The name cannot be used as a storage key.
    InvalidName(String),
    /// A dump was asked for without naming the pattern to dump.
    DumpNeedsName,
}

impl GfrError {
    /// The text of the message that reports this failure.
    pub open spec fn message_text(self) -> Seq<char> {
        match self {
            GfrError::NotFound(place) => "Pattern file not found: "@ + place@,
            GfrError::InvalidFormat(place, reason) => "Failed to parse JSON from: "@ + place@
                + ": "@ + reason@,
            GfrError::ConflictingFilters =>
                "Cannot combine pattern name with --tags or --author filters. Use either a specific pattern name OR filters, not both."@,
            GfrError::NoFilterSpecified =>
                "Search requires a filter. Please provide a pattern name, --tags, or --author."@,
            GfrError::NoMatches => "No patterns found matching the specified criteria."@,
            GfrError::MissingRegex =>
                "Pattern file must contain either a 'pattern' key or a non-empty 'patterns' key."@,
            GfrError::CompileFailure(detail) => detail@,
            GfrError::MalformedRemoteVersion(name, version) =>
                "Invalid version '"@ + version@ + "' for remote pattern '"@ + name@ + "'."@,
            GfrError::RemoteValidationFailure(name, reason) =>
                "Remote pattern '"@ + name@ + "' is not a valid pattern file: "@ + reason@,
            GfrError::AlreadyExists(name) => "Pattern '"@ + name@ + "' already exists."@,
            GfrError::InvalidName(name) =>
                "Invalid pattern name '"@ + name@ + "'. Name cannot contain '.', '/', or '\\'"@,
            GfrError::DumpNeedsName => "--dump requires a single pattern_name to be specified."@,
        }
    }

    /// The message that reports this failure.
    pub fn message(&self) -> (out: String)
        ensures
            out@ == self.message_text(),
    {
        match self {
            GfrError::NotFound(place) => String::from_str("Pattern file not found: ").concat(
                place.as_str(),
            ),
            GfrError::InvalidFormat(place, reason) => String::from_str(
                "Failed to parse JSON from: ",
            ).concat(place.as_str()).concat(": ").concat(reason.as_str()),
            GfrError::ConflictingFilters => String::from_str(
                "Cannot combine pattern name with --tags or --author filters. Use either a specific pattern name OR filters, not both.",
            ),
            GfrError::NoFilterSpecified => String::from_str(
                "Search requires a filter. Please provide a pattern name, --tags, or --author.",
            ),
            GfrError::NoMatches => String::from_str(
                "No patterns found matching the specified criteria.",
            ),
            GfrError::MissingRegex => String::from_str(
                "Pattern file must contain either a 'pattern' key or a non-empty 'patterns' key.",
            ),
            GfrError::CompileFailure(detail) => detail.clone(),
            GfrError::MalformedRemoteVersion(name, version) => String::from_str(
                "Invalid version '",
            ).concat(version.as_str()).concat("' for remote pattern '").concat(
                name.as_str(),
            ).concat("'."),
            GfrError::RemoteValidationFailure(name, reason) => String::from_str(
                "Remote pattern '",
            ).concat(name.as_str()).concat("' is not a valid pattern file: ").concat(
                reason.as_str(),
            ),
            GfrError::AlreadyExists(name) => String::from_str("Pattern '").concat(
                name.as_str(),
            ).concat("' already exists."),
            GfrError::InvalidName(name) => String::from_str("Invalid pattern name '").concat(
                name.as_str(),
            ).concat("'. Name cannot contain '.', '/', or '\\'"),
            GfrError::DumpNeedsName => String::from_str(
                "--dump requires a single pattern_name to be specified.",
            ),
        }
    }
}

} // verus!
