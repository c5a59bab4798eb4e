//! Canonical posts: the normalized unit of output, its file name and its markdown
//! text with front matter.

use crate::error::SourceError;
use crate::text::{escape_quotes, push_escaped, replace_char, replace_char_in};
use vstd::prelude::*;

verus! {

/// One normalized post, whatever source it came from.
#[derive(Clone, Debug)]
pub struct CanonicalPost {
    pub title: String,
    /// The calendar date, `YYYY-MM-DD` for feed items.
    pub date: String,
    pub author: String,
    pub tags: Vec<String>,
    /// Where the post came from: a URL or the source identifier.
    pub original_link: String,
    /// The body, verbatim.
    pub content: String,
}

/// What a post holds, as mathematical values.
pub ghost struct PostView {
    pub title: Seq<char>,
    pub date: Seq<char>,
    pub author: Seq<char>,
    pub tags: Seq<Seq<char>>,
    pub original_link: Seq<char>,
    pub content: Seq<char>,
}

impl View for CanonicalPost {
    type V = PostView;

    open spec fn view(&self) -> PostView {
        PostView {
            title: self.title@,
            date: self.date@,
            author: self.author@,
            tags: views(self.tags@),
            original_link: self.original_link@,
            content: self.content@,
        }
    }
}

pub open spec fn post_result_view(r: Result<CanonicalPost, SourceError>) -> Result<
    PostView,
    SourceError,
> {
    match r {
        Ok(p) => Ok(p@),
        Err(e) => Err(e),
    }
}

/// The views of a list of strings.
pub open spec fn views(v: Seq<String>) -> Seq<Seq<char>> {
    v.map_values(|s: String| s@)
}

/// The tags as they stand between the brackets: separated by `, `.
pub open spec fn joined_tags(tags: Seq<Seq<char>>) -> Seq<char>
    decreases tags.len(),
{
    if tags.len() == 0 {
        Seq::empty()
    } else if tags.len() == 1 {
        tags[0]
    } else {
        joined_tags(tags.drop_last()) + seq![',', ' '] + tags.last()
    }
}

/// The file name of a post: `<date>-<title>.md`, with every `/` turned into `-`.
pub open spec fn post_file_name(date: Seq<char>, title: Seq<char>) -> Seq<char> {
    replace_char(date + seq!['-'] + title + seq!['.', 'm', 'd'], '/', '-')
}

/// The markdown text of a post: a front matter block, then the body verbatim.
pub open spec fn post_text(
    title: Seq<char>,
    date: Seq<char>,
    author: Seq<char>,
    tags: Seq<Seq<char>>,
    link: Seq<char>,
    content: Seq<char>,
) -> Seq<char> {
    "---\ntitle: '"@ + escape_quotes(title) + "'\ndate: "@ + date + "\nauthor: "@ + author
        + "\ntags: ["@ + joined_tags(tags) + "]\noriginal_link: "@ + link + "\n---\n"@ + content
}

impl CanonicalPost {
    pub open spec fn file_name_spec(&self) -> Seq<char> {
        post_file_name(self.date@, self.title@)
    }

    pub open spec fn text_spec(&self) -> Seq<char> {
        post_text(
            self.title@,
            self.date@,
            self.author@,
            views(self.tags@),
            self.original_link@,
            self.content@,
        )
    }

    /// The name of the file that this post is written to; it depends on the date
    /// and the title alone.
    pub fn file_name(&self) -> (r: String)
        ensures
            r@ == self.file_name_spec(),
    {
        let mut name = self.date.clone();
        name.append("-");
        name.append(self.title.as_str());
        name.append(".md");
        proof {
            reveal_strlit("-");
            reveal_strlit(".md");
        }
        assert(name@ =~= self.date@ + seq!['-'] + self.title@ + seq!['.', 'm', 'd']);
        replace_char_in(name.as_str(), '/', '-')
    }

    /// The full text of the post's file.
    pub fn render(&self) -> (r: String)
        ensures
            r@ == self.text_spec(),
    {
        let mut out = String::new();
        out.append("---\ntitle: '");
        push_escaped(&mut out, self.title.as_str());
        out.append("'\ndate: ");
        out.append(self.date.as_str());
        out.append("\nauthor: ");
        out.append(self.author.as_str());
        out.append("\ntags: [");
        push_joined(&mut out, &self.tags);
        out.append("]\noriginal_link: ");
        out.append(self.original_link.as_str());
        out.append("\n---\n");
        out.append(self.content.as_str());
        out
    }
}

/// Appends the tags, separated by `, `.
fn push_joined(out: &mut String, tags: &Vec<String>)
    ensures
        final(out)@ == old(out)@ + joined_tags(views(tags@)),
{
    let mut i: usize = 0;
    while i < tags.len()
        invariant
            i <= tags@.len(),
            out@ == old(out)@ + joined_tags(views(tags@.subrange(0, i as int))),
        decreases tags@.len() - i,
    {
        let ghost before = out@;
        if i > 0 {
            out.append(", ");
            proof {
                reveal_strlit(", ");
            }
        }
        out.append(tags[i].as_str());
        proof {
            let prev = views(tags@.subrange(0, i as int));
            let next = views(tags@.subrange(0, i + 1));
            assert(next.drop_last() =~= prev);
            assert(next.last() == tags@[i as int]@);
            if i == 0 {
                assert(next =~= seq![tags@[0]@]);
            }
            assert(out@ =~= old(out)@ + joined_tags(next));
        }
        i += 1;
    }
    assert(tags@.subrange(0, tags@.len() as int) =~= tags@);
}

/// An output directory as file names mapped to file contents.
pub type Directory = Map<Seq<char>, Seq<char>>;

/// The directory after writing `p` into it: its file is created or truncated.
pub open spec fn written(dir: Directory, p: CanonicalPost) -> Directory {
    dir.insert(p.file_name_spec(), p.text_spec())
}

/// Writing the same post twice leaves the directory as one write does: one file
/// named after the post, holding the post's text once.
pub proof fn lemma_write_idempotent(dir: Directory, p: CanonicalPost)
    ensures
        written(written(dir, p), p) == written(dir, p),
        written(dir, p).dom() == dir.dom().insert(p.file_name_spec()),
        written(dir, p)[p.file_name_spec()] == p.text_spec(),
{
    assert(written(written(dir, p), p) =~= written(dir, p));
    assert(written(dir, p).dom() =~= dir.dom().insert(p.file_name_spec()));
}

/// Two posts with the same date and title are written to the same file.
pub proof fn lemma_name_from_date_and_title(p: CanonicalPost, q: CanonicalPost)
    requires
        p.date@ == q.date@,
        p.title@ == q.title@,
    ensures
        p.file_name_spec() == q.file_name_spec(),
{
}

/// A file name never holds a `/`, so a post is never written into a subdirectory.
pub proof fn lemma_name_has_no_slash(p: CanonicalPost)
    ensures
        !p.file_name_spec().contains('/'),
{
    let s = p.date@ + seq!['-'] + p.title@ + seq!['.', 'm', 'd'];
    let r = replace_char(s, '/', '-');
    assert forall|i: int| 0 <= i < r.len() implies r[i] != '/' by {}
}

} // verus!
