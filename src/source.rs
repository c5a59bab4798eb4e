//! Source identifiers: what kind of source one names, and where its mirror lives.

use crate::error::SourceError;
use crate::text::{ends_with, has_prefix, has_suffix, replace_char, replace_char_in, starts_with};
use vstd::prelude::*;

verus! {

/// Where a source's items come from.
#[derive(Clone, Copy, Debug, PartialEq, Eq, Structural)]
pub enum SourceKind {
    /// A git repository, mirrored locally.
    Git,
    /// A feed downloaded over HTTP.
    RemoteFeed,
    /// A feed read from a local file.
    LocalFeed,
}

/// The directory, under the output directory, that holds the sources' caches.
pub const CACHE_DIR: &'static str = ".blogs";

/// Where a mirrored repository keeps its posts.
pub const MIRROR_POSTS_DIR: &'static str = "content/post";

/// What a source identifier is routed to: `.git` first, then `.xml` (remote when it
/// starts with `http`); anything else is refused.
pub open spec fn kind_of(source: Seq<char>) -> Result<SourceKind, SourceError> {
    if has_suffix(source, ".git"@) {
        Ok(SourceKind::Git)
    } else if has_suffix(source, ".xml"@) {
        if has_prefix(source, "http"@) {
            Ok(SourceKind::RemoteFeed)
        } else {
            Ok(SourceKind::LocalFeed)
        }
    } else {
        Err(SourceError::UnsupportedSourceKind)
    }
}

/// Classifies a source identifier by its suffix and scheme alone.
pub fn classify(source: &str) -> (r: Result<SourceKind, SourceError>)
    ensures
        r == kind_of(source@),
{
    if ends_with(source, ".git") {
        Ok(SourceKind::Git)
    } else if ends_with(source, ".xml") {
        if starts_with(source, "http") {
            Ok(SourceKind::RemoteFeed)
        } else {
            Ok(SourceKind::LocalFeed)
        }
    } else {
        Err(SourceError::UnsupportedSourceKind)
    }
}

/// The name of a source's cache directory under `.blogs`: the identifier with every
/// `/` turned into `-`.
pub open spec fn cache_dir_name(source: Seq<char>) -> Seq<char> {
    replace_char(source, '/', '-')
}

/// What to do for one source: its kind and the name of its cache directory.
#[derive(Clone, Debug)]
pub struct SourcePlan {
    pub kind: SourceKind,
    pub cache_dir: String,
}

/// Plans the processing of a source. A refused identifier gets no plan, and so no
/// cache directory.
pub fn plan(source: &str) -> (r: Result<SourcePlan, SourceError>)
    ensures
        kind_of(source@) is Err <==> r is Err,
        r matches Err(e) ==> e == SourceError::UnsupportedSourceKind,
        r matches Ok(p) ==> kind_of(source@) == Ok::<SourceKind, SourceError>(p.kind)
            && p.cache_dir@ == cache_dir_name(source@),
{
    match classify(source) {
        Err(e) => Err(e),
        Ok(kind) => Ok(SourcePlan { kind, cache_dir: replace_char_in(source, '/', '-') }),
    }
}

/// The cache directory name of a source holds no `/`: it is one directory directly
/// under `.blogs`, the same on every run.
pub proof fn lemma_cache_dir_is_flat(source: Seq<char>)
    ensures
        !cache_dir_name(source).contains('/'),
        cache_dir_name(source).len() == source.len(),
{
    let r = cache_dir_name(source);
    assert forall|i: int| 0 <= i < r.len() implies r[i] != '/' by {}
}

} // verus!
