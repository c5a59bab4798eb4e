//! The errors that processing one source can end in.

use vstd::prelude::*;

verus! {

/// Why a source, or one of its items, could not be processed.
#[derive(Clone, Copy, Debug, PartialEq, Eq, Structural)]
pub enum SourceError {
    /// The identifier ends in neither `.git` nor `.xml`.
    UnsupportedSourceKind,
    /// The first clone of a git mirror failed.
    CloneFailed,
    /// Updating a git mirror, or downloading a feed, failed.
    FetchFailed,
    /// A local file could not be read.
    ReadFailed,
    /// The feed text is neither Atom nor RSS.
    UnsupportedFeedFormat,
    /// A feed item has no text to use as the post body.
    MissingSummary,
    /// An RSS item has no publication date.
    MissingDate,
    /// A timestamp is neither RFC 2822 nor RFC 3339.
    UnparsableDate,
    /// A markdown document has no front matter block.
    InvalidFrontMatter,
    /// A required field is absent.
    MissingField,
    /// An output file could not be written.
    WriteFailed,
}

/// The operator's description of each error.
pub open spec fn error_message(e: SourceError) -> Seq<char> {
    match e {
        SourceError::UnsupportedSourceKind => "unknown blog type"@,
        SourceError::CloneFailed => "failed to clone"@,
        SourceError::FetchFailed => "failed to fetch"@,
        SourceError::ReadFailed => "failed to read"@,
        SourceError::UnsupportedFeedFormat => "not an Atom or RSS feed"@,
        SourceError::MissingSummary => "no summary or content"@,
        SourceError::MissingDate => "no date"@,
        SourceError::UnparsableDate => "failed to parse as RFC 2822 or RFC 3339"@,
        SourceError::InvalidFrontMatter => "invalid front matter"@,
        SourceError::MissingField => "missing field"@,
        SourceError::WriteFailed => "failed to write"@,
    }
}

impl SourceError {
    /// A short description for an operator.
    pub fn message(&self) -> (r: &'static str)
        ensures
            r@ == error_message(*self),
    {
        match self {
            SourceError::UnsupportedSourceKind => "unknown blog type",
            SourceError::CloneFailed => "failed to clone",
            SourceError::FetchFailed => "failed to fetch",
            SourceError::ReadFailed => "failed to read",
            SourceError::UnsupportedFeedFormat => "not an Atom or RSS feed",
            SourceError::MissingSummary => "no summary or content",
            SourceError::MissingDate => "no date",
            SourceError::UnparsableDate => "failed to parse as RFC 2822 or RFC 3339",
            SourceError::InvalidFrontMatter => "invalid front matter",
            SourceError::MissingField => "missing field",
            SourceError::WriteFailed => "failed to write",
        }
    }
}

} // verus!
