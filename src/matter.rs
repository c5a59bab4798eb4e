//! Markdown documents with a YAML front matter block: reading the fields that a
//! post needs, and the post that a mirrored document becomes.

use crate::error::SourceError;
use crate::feed::opt_view;
use crate::post::{views, CanonicalPost, PostView};
use vstd::prelude::*;

verus! {

/// The marker that ends a document's excerpt; it stays in the body.
pub const EXCERPT_DELIMITER: &'static str = "<!--more-->";

pub open spec fn opt_views(s: Seq<Option<String>>) -> Seq<Option<Seq<char>>> {
    s.map_values(|o: Option<String>| opt_view(o))
}

/// How the front matter parser reads a document, given the excerpt marker and a
/// list of keys: whether the document opens with a block that holds a YAML
/// mapping, the string value of each key in that mapping (`None` where the key is
/// absent or its value is no string), and the body after the block.
pub uninterp spec fn matter_fields(
    text: Seq<char>,
    excerpt: Seq<char>,
    keys: Seq<Seq<char>>,
) -> (bool, Seq<Option<Seq<char>>>, Seq<char>);

/// Relies on gray_matter's `Matter::<YAML>::parse` with the given excerpt
/// delimiter, and on `Pod::remove` and `Pod::as_string` to read each key's string
/// value: one value per key, in order.
#[verifier::external_body]
fn parse_matter(text: &str, excerpt: &str, keys: &Vec<String>) -> (r: (
    bool,
    Vec<Option<String>>,
    String,
))
    ensures
        r.1@.len() == keys@.len(),
        matter_fields(text@, excerpt@, views(keys@)) == (r.0, opt_views(r.1@), r.2@),
{
    let mut matter = gray_matter::Matter::<gray_matter::engine::YAML>::new();
    matter.excerpt_delimiter = Some(excerpt.to_string());
    let parsed = matter.parse(text);
    let mapping = matches!(parsed.data, Some(gray_matter::Pod::Hash(_)));
    let mut data = parsed.data.unwrap_or(gray_matter::Pod::Null);
    let values = keys.iter().map(|k| data.remove(k.clone()).as_string().ok()).collect();
    (mapping, values, parsed.content)
}

/// The keys of the front matter that are read, in order.
pub open spec fn front_matter_keys() -> Seq<Seq<char>> {
    seq!["title"@, "date"@, "author"@, "original_link"@]
}

/// The fields of a document, as plain values.
pub ghost struct FrontMatterView {
    pub title: Seq<char>,
    pub date: Seq<char>,
    pub author: Option<Seq<char>>,
    pub original_link: Option<Seq<char>>,
    pub body: Seq<char>,
}

/// The fields of a document that a post is made from.
#[derive(Clone, Debug)]
pub struct FrontMatter {
    pub title: String,
    pub date: String,
    pub author: Option<String>,
    pub original_link: Option<String>,
    pub body: String,
}

impl View for FrontMatter {
    type V = FrontMatterView;

    open spec fn view(&self) -> FrontMatterView {
        FrontMatterView {
            title: self.title@,
            date: self.date@,
            author: opt_view(self.author),
            original_link: opt_view(self.original_link),
            body: self.body@,
        }
    }
}

pub open spec fn matter_result_view(r: Result<FrontMatter, SourceError>) -> Result<
    FrontMatterView,
    SourceError,
> {
    match r {
        Ok(m) => Ok(m@),
        Err(e) => Err(e),
    }
}

/// A document's fields from what the parser found for the keys `title`, `date`,
/// `author` and `original_link`: `InvalidFrontMatter` without a mapping block,
/// `MissingField` without a title or a date.
pub open spec fn fields_outcome(
    mapping: bool,
    values: Seq<Option<Seq<char>>>,
    body: Seq<char>,
) -> Result<FrontMatterView, SourceError> {
    if !mapping {
        Err(SourceError::InvalidFrontMatter)
    } else if values[0] is None || values[1] is None {
        Err(SourceError::MissingField)
    } else {
        Ok(
            FrontMatterView {
                title: values[0]->Some_0,
                date: values[1]->Some_0,
                author: values[2],
                original_link: values[3],
                body,
            },
        )
    }
}

/// What a document decodes to.
pub open spec fn decoded(text: Seq<char>) -> Result<FrontMatterView, SourceError> {
    let parsed = matter_fields(text, EXCERPT_DELIMITER@, front_matter_keys());
    fields_outcome(parsed.0, parsed.1, parsed.2)
}

/// Assembles a document's fields from the values found for `title`, `date`,
/// `author` and `original_link`.
pub fn front_matter_from(mapping: bool, values: Vec<Option<String>>, body: String) -> (r: Result<
    FrontMatter,
    SourceError,
>)
    requires
        values@.len() == 4,
    ensures
        matter_result_view(r) == fields_outcome(mapping, opt_views(values@), body@),
{
    if !mapping {
        return Err(SourceError::InvalidFrontMatter);
    }
    let title = values[0].clone();
    let date = values[1].clone();
    let author = values[2].clone();
    let original_link = values[3].clone();
    match (title, date) {
        (Some(title), Some(date)) => {
            let m = FrontMatter { title, date, author, original_link, body };
            assert(matter_result_view(Ok(m)) == fields_outcome(mapping, opt_views(values@), body@));
            Ok(m)
        },
        _ => Err(SourceError::MissingField),
    }
}

/// Reads a document's front matter: `InvalidFrontMatter` where it does not open
/// with a block holding a YAML mapping, `MissingField` where the mapping lacks a
/// string `title` or `date`.
pub fn decode(text: &str) -> (r: Result<FrontMatter, SourceError>)
    ensures
        matter_result_view(r) == decoded(text@),
{
    let keys = vec![
        "title".to_string(),
        "date".to_string(),
        "author".to_string(),
        "original_link".to_string(),
    ];
    assert(views(keys@) =~= front_matter_keys());
    let (mapping, values, body) = parse_matter(text, EXCERPT_DELIMITER, &keys);
    front_matter_from(mapping, values, body)
}

impl FrontMatter {
    /// The post for a mirrored document: its date as written, and the source
    /// identifier as both author and original link.
    pub fn to_post(&self, source: &str) -> (r: CanonicalPost)
        ensures
            r@ == git_post_view(self@, source@),
    {
        let r = CanonicalPost {
            title: self.title.clone(),
            date: self.date.clone(),
            author: source.to_string(),
            tags: Vec::new(),
            original_link: source.to_string(),
            content: self.body.clone(),
        };
        assert(views(r.tags@) =~= Seq::empty());
        r
    }
}

/// The post for a mirrored document with fields `m`.
pub open spec fn git_post_view(m: FrontMatterView, source: Seq<char>) -> PostView {
    PostView {
        title: m.title,
        date: m.date,
        author: source,
        tags: Seq::empty(),
        original_link: source,
        content: m.body,
    }
}

/// The post for one document of a git mirror, or why the document has none.
pub fn git_post(text: &str, source: &str) -> (r: Result<CanonicalPost, SourceError>)
    ensures
        crate::post::post_result_view(r) == match decoded(text@) {
            Ok(m) => Ok(git_post_view(m, source@)),
            Err(e) => Err(e),
        },
{
    match decode(text) {
        Ok(m) => Ok(m.to_post(source)),
        Err(e) => Err(e),
    }
}

} // verus!
