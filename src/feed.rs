//! Atom and RSS feeds: parsing feed text into items, and the field rules that turn
//! each item into a canonical post.

use crate::date::{normalize_date, rfc2822_date, rfc3339_date, resolved_day, result_view};
use crate::error::SourceError;
use crate::post::{post_result_view, views, CanonicalPost, PostView};
use vstd::prelude::*;
use vstd::string::StringSliceAdditionalSpecFns;

verus! {

/// atom_syndication's `Entry`; opaque here.
#[verifier::external_type_specification]
#[verifier::external_body]
pub struct ExAtomEntry(atom_syndication::Entry);

/// atom_syndication's `Content`; opaque here.
#[verifier::external_type_specification]
#[verifier::external_body]
pub struct ExAtomContent(atom_syndication::Content);

/// atom_syndication's `Person`; opaque here.
#[verifier::external_type_specification]
#[verifier::external_body]
pub struct ExAtomPerson(atom_syndication::Person);

/// atom_syndication's `Link`; opaque here.
#[verifier::external_type_specification]
#[verifier::external_body]
pub struct ExAtomLink(atom_syndication::Link);

/// atom_syndication's `Category`; opaque here.
#[verifier::external_type_specification]
#[verifier::external_body]
pub struct ExAtomCategory(atom_syndication::Category);

/// rss's `Item`; opaque here.
#[verifier::external_type_specification]
#[verifier::external_body]
pub struct ExRssItem(rss::Item);

/// rss's `Category`; opaque here.
#[verifier::external_type_specification]
#[verifier::external_body]
pub struct ExRssCategory(rss::Category);

/// Relies on atom_syndication's `Entry::title`: an accessor that returns the stored field; nothing is
/// assumed of what it returns.
pub assume_specification[ atom_syndication::Entry::title ](entry: &atom_syndication::Entry) -> &str;

/// Relies on atom_syndication's `Entry::summary`: an accessor that returns the stored field; nothing is
/// assumed of what it returns.
pub assume_specification[ atom_syndication::Entry::summary ](
    entry: &atom_syndication::Entry,
) -> Option<&str>;

/// Relies on atom_syndication's `Entry::content`: an accessor that returns the stored field; nothing is
/// assumed of what it returns.
pub assume_specification[ atom_syndication::Entry::content ](
    entry: &atom_syndication::Entry,
) -> Option<&atom_syndication::Content>;

/// Relies on atom_syndication's `Entry::authors`: an accessor that returns the stored field; nothing is
/// assumed of what it returns.
pub assume_specification[ atom_syndication::Entry::authors ](
    entry: &atom_syndication::Entry,
) -> &[atom_syndication::Person];

/// Relies on atom_syndication's `Entry::published`: an accessor that returns the stored field; nothing is
/// assumed of what it returns.
pub assume_specification[ atom_syndication::Entry::published ](
    entry: &atom_syndication::Entry,
) -> Option<&str>;

/// Relies on atom_syndication's `Entry::updated`: an accessor that returns the stored field; nothing is
/// assumed of what it returns.
pub assume_specification[ atom_syndication::Entry::updated ](
    entry: &atom_syndication::Entry,
) -> &str;

/// Relies on atom_syndication's `Entry::links`: an accessor that returns the stored field; nothing is
/// assumed of what it returns.
pub assume_specification[ atom_syndication::Entry::links ](
    entry: &atom_syndication::Entry,
) -> &[atom_syndication::Link];

/// Relies on atom_syndication's `Entry::categories`: an accessor that returns the stored field; nothing is
/// assumed of what it returns.
pub assume_specification[ atom_syndication::Entry::categories ](
    entry: &atom_syndication::Entry,
) -> &[atom_syndication::Category];

/// Relies on atom_syndication's `Content::value`: an accessor that returns the stored field; nothing is
/// assumed of what it returns.
pub assume_specification[ atom_syndication::Content::value ](
    content: &atom_syndication::Content,
) -> Option<&str>;

/// Relies on atom_syndication's `Person::name`: an accessor that returns the stored field; nothing is
/// assumed of what it returns.
pub assume_specification[ atom_syndication::Person::name ](
    person: &atom_syndication::Person,
) -> &str;

/// Relies on atom_syndication's `Link::href`: an accessor that returns the stored field; nothing is
/// assumed of what it returns.
pub assume_specification[ atom_syndication::Link::href ](link: &atom_syndication::Link) -> &str;

/// Relies on atom_syndication's `Category::term`: an accessor that returns the stored field; nothing is
/// assumed of what it returns.
pub assume_specification[ atom_syndication::Category::term ](
    category: &atom_syndication::Category,
) -> &str;

/// Relies on rss's `Item::title`: an accessor that returns the stored field; nothing is
/// assumed of what it returns.
pub assume_specification[ rss::Item::title ](item: &rss::Item) -> Option<&str>;

/// Relies on rss's `Item::link`: an accessor that returns the stored field; nothing is
/// assumed of what it returns.
pub assume_specification[ rss::Item::link ](item: &rss::Item) -> Option<&str>;

/// Relies on rss's `Item::description`: an accessor that returns the stored field; nothing is
/// assumed of what it returns.
pub assume_specification[ rss::Item::description ](item: &rss::Item) -> Option<&str>;

/// Relies on rss's `Item::author`: an accessor that returns the stored field; nothing is
/// assumed of what it returns.
pub assume_specification[ rss::Item::author ](item: &rss::Item) -> Option<&str>;

/// Relies on rss's `Item::pub_date`: an accessor that returns the stored field; nothing is
/// assumed of what it returns.
pub assume_specification[ rss::Item::pub_date ](item: &rss::Item) -> Option<&str>;

/// Relies on rss's `Item::categories`: an accessor that returns the stored field; nothing is
/// assumed of what it returns.
pub assume_specification[ rss::Item::categories ](item: &rss::Item) -> &[rss::Category];

/// Relies on rss's `Category::name`: an accessor that returns the stored field; nothing is
/// assumed of what it returns.
pub assume_specification[ rss::Category::name ](category: &rss::Category) -> &str;

/// Whether a byte string holds `needle` somewhere.
pub open spec fn contains_bytes(hay: Seq<u8>, needle: Seq<u8>) -> bool {
    exists|i: int|
        0 <= i && i + needle.len() <= hay.len() && #[trigger] hay.subrange(i, i + needle.len())
            == needle
}

/// Whether the text names an element of the RSS syndication extension's update
/// schedule. The RSS parser unwraps the parse of those elements' values, so such
/// texts are not handed to it.
pub open spec fn mentions_update_schedule(text: &str) -> bool {
    contains_bytes(text.spec_bytes(), "updatePeriod".spec_bytes()) || contains_bytes(
        text.spec_bytes(),
        "updateFrequency".spec_bytes(),
    )
}

fn bytes_contain(hay: &[u8], needle: &[u8]) -> (r: bool)
    ensures
        r == contains_bytes(hay@, needle@),
{
    let n = hay.len();
    let m = needle.len();
    if m > n {
        assert forall|i: int| 0 <= i && i + needle@.len() <= hay@.len() implies #[trigger] hay@.subrange(
            i,
            i + needle@.len(),
        ) != needle@ by {}
        return false;
    }
    let mut i: usize = 0;
    while i <= n - m
        invariant
            n == hay@.len(),
            m == needle@.len(),
            m <= n,
            forall|k: int| 0 <= k < i ==> #[trigger] hay@.subrange(k, k + m) != needle@,
        decreases n - m + 1 - i,
    {
        let mut j: usize = 0;
        while j < m && hay[i + j] == needle[j]
            invariant
                n == hay@.len(),
                m == needle@.len(),
                i + m <= n,
                j <= m,
                forall|t: int| 0 <= t < j ==> hay@[i + t] == needle@[t],
            decreases m - j,
        {
            j += 1;
        }
        if j < m {
            assert(hay@.subrange(i as int, i + m)[j as int] != needle@[j as int]);
        }
        if j == m {
            assert(hay@.subrange(i as int, i + m) =~= needle@);
            return true;
        }
        i += 1;
    }
    assert forall|k: int| 0 <= k && k + needle@.len() <= hay@.len() implies #[trigger] hay@.subrange(
        k,
        k + needle@.len(),
    ) != needle@ by {}
    false
}

/// Whether the text names an update-schedule element of the RSS syndication
/// extension.
pub fn has_update_schedule(text: &str) -> (r: bool)
    ensures
        r == mentions_update_schedule(text),
{
    bytes_contain(text.as_bytes(), "updatePeriod".as_bytes()) || bytes_contain(
        text.as_bytes(),
        "updateFrequency".as_bytes(),
    )
}

/// An Atom entry as plain values.
pub ghost struct AtomView {
    pub title: Seq<char>,
    pub summary: Option<Seq<char>>,
    pub content: Option<Seq<char>>,
    pub authors: Seq<Seq<char>>,
    pub published: Option<Seq<char>>,
    pub updated: Seq<char>,
    pub links: Seq<Seq<char>>,
    pub categories: Seq<Seq<char>>,
}

/// An RSS item as plain values.
pub ghost struct RssView {
    pub title: Option<Seq<char>>,
    pub link: Option<Seq<char>>,
    pub description: Option<Seq<char>>,
    pub author: Option<Seq<char>>,
    pub pub_date: Option<Seq<char>>,
    pub categories: Seq<Seq<char>>,
}

/// A feed item of either dialect as plain values.
pub ghost enum ItemView {
    Atom(AtomView),
    Rss(RssView),
}

pub open spec fn opt_view(o: Option<String>) -> Option<Seq<char>> {
    match o {
        Some(s) => Some(s@),
        None => None,
    }
}

/// The fields of an Atom entry that a post is made from.
#[derive(Clone, Debug)]
pub struct AtomFields {
    pub title: String,
    pub summary: Option<String>,
    /// The value of the entry's content, where it has one.
    pub content: Option<String>,
    /// The names of the entry's authors, in order.
    pub authors: Vec<String>,
    pub published: Option<String>,
    pub updated: String,
    /// The targets of the entry's links, in order.
    pub links: Vec<String>,
    /// The terms of the entry's categories, in order.
    pub categories: Vec<String>,
}

impl View for AtomFields {
    type V = AtomView;

    open spec fn view(&self) -> AtomView {
        AtomView {
            title: self.title@,
            summary: opt_view(self.summary),
            content: opt_view(self.content),
            authors: views(self.authors@),
            published: opt_view(self.published),
            updated: self.updated@,
            links: views(self.links@),
            categories: views(self.categories@),
        }
    }
}

/// The fields of an RSS item that a post is made from.
#[derive(Clone, Debug)]
pub struct RssFields {
    pub title: Option<String>,
    pub link: Option<String>,
    pub description: Option<String>,
    pub author: Option<String>,
    pub pub_date: Option<String>,
    /// The names of the item's categories, in order.
    pub categories: Vec<String>,
}

impl View for RssFields {
    type V = RssView;

    open spec fn view(&self) -> RssView {
        RssView {
            title: opt_view(self.title),
            link: opt_view(self.link),
            description: opt_view(self.description),
            author: opt_view(self.author),
            pub_date: opt_view(self.pub_date),
            categories: views(self.categories@),
        }
    }
}

/// One item of a feed, in either dialect.
#[derive(Clone, Debug)]
pub enum FeedItem {
    Atom(AtomFields),
    Rss(RssFields),
}

impl View for FeedItem {
    type V = ItemView;

    open spec fn view(&self) -> ItemView {
        match self {
            FeedItem::Atom(f) => ItemView::Atom(f@),
            FeedItem::Rss(f) => ItemView::Rss(f@),
        }
    }
}

pub open spec fn item_views(items: Seq<FeedItem>) -> Seq<ItemView> {
    items.map_values(|i: FeedItem| i@)
}

/// What the feed parser makes of a text: `None` where it is neither Atom nor RSS,
/// else the feed's entries (or items) in document order, with every field that a
/// post needs.
pub uninterp spec fn parsed_items(text: Seq<char>) -> Option<Seq<ItemView>>;

/// Relies on syndication's `Feed::from_str`, which tries Atom first and then RSS,
/// and on the Atom and RSS accessors read by `atom_item` and `rss_item`: the items of
/// the feed in document order, converted one for one. The RSS parser unwraps the
/// values of the syndication extension's update schedule, so texts that name it
/// are left out.
#[verifier::external_body]
fn parse_feed(text: &str) -> (r: Option<Vec<FeedItem>>)
    requires
        !mentions_update_schedule(text),
    ensures
        r matches Some(v) ==> parsed_items(text@) == Some(item_views(v@)),
        r is None ==> parsed_items(text@) is None,
{
    match text.parse::<syndication::Feed>() {
        Ok(syndication::Feed::Atom(feed)) => Some(feed.entries().iter().map(atom_item).collect()),
        Ok(syndication::Feed::RSS(channel)) => Some(channel.items().iter().map(rss_item).collect()),
        Err(_) => None,
    }
}

/// A field, or the source identifier where the field is absent.
pub open spec fn or_source(o: Option<Seq<char>>, source: Seq<char>) -> Seq<char> {
    match o {
        Some(s) => s,
        None => source,
    }
}

/// The last element of a list, if any.
pub open spec fn last_of(s: Seq<Seq<char>>) -> Option<Seq<char>> {
    if s.len() > 0 {
        Some(s.last())
    } else {
        None
    }
}

/// The tags of a post: the last category, if any.
pub open spec fn tag_list(categories: Seq<Seq<char>>) -> Seq<Seq<char>> {
    if categories.len() > 0 {
        seq![categories.last()]
    } else {
        Seq::empty()
    }
}

/// The body of an Atom post: the summary, else the content's value.
pub open spec fn atom_body(f: AtomView) -> Option<Seq<char>> {
    match f.summary {
        Some(s) => Some(s),
        None => f.content,
    }
}

/// The timestamp of an Atom entry: when it was published, else when it was updated.
pub open spec fn atom_timestamp(f: AtomView) -> Seq<char> {
    match f.published {
        Some(p) => p,
        None => f.updated,
    }
}

/// The post made from an Atom entry, given what its timestamp normalized to: the
/// last author (else the source), the last link, and the last category as its tag.
pub open spec fn atom_outcome(
    f: AtomView,
    source: Seq<char>,
    day: Result<Seq<char>, SourceError>,
) -> Result<PostView, SourceError> {
    match atom_body(f) {
        None => Err(SourceError::MissingSummary),
        Some(body) => match day {
            Err(e) => Err(e),
            Ok(d) => match last_of(f.links) {
                None => Err(SourceError::MissingField),
                Some(link) => Ok(
                    PostView {
                        title: f.title,
                        date: d,
                        author: or_source(last_of(f.authors), source),
                        tags: tag_list(f.categories),
                        original_link: link,
                        content: body,
                    },
                ),
            },
        },
    }
}

/// The post made from an RSS item, given what its publication date normalized to.
pub open spec fn rss_outcome(
    f: RssView,
    source: Seq<char>,
    day: Result<Seq<char>, SourceError>,
) -> Result<PostView, SourceError> {
    match (f.link, f.title, f.description, f.pub_date) {
        (None, _, _, _) => Err(SourceError::MissingField),
        (Some(_), None, _, _) => Err(SourceError::MissingField),
        (Some(_), Some(_), None, _) => Err(SourceError::MissingSummary),
        (Some(_), Some(_), Some(_), None) => Err(SourceError::MissingDate),
        (Some(link), Some(title), Some(description), Some(_)) => match day {
            Err(e) => Err(e),
            Ok(d) => Ok(
                PostView {
                    title,
                    date: d,
                    author: or_source(f.author, source),
                    tags: tag_list(f.categories),
                    original_link: link,
                    content: description,
                },
            ),
        },
    }
}

/// What a timestamp normalizes to.
pub open spec fn normalized(s: Seq<char>) -> Result<Seq<char>, SourceError> {
    resolved_day(rfc2822_date(s), rfc3339_date(s))
}

/// The post made from a feed item, or why none can be.
pub open spec fn item_outcome(item: ItemView, source: Seq<char>) -> Result<PostView, SourceError> {
    match item {
        ItemView::Atom(f) => atom_outcome(f, source, normalized(atom_timestamp(f))),
        ItemView::Rss(f) => rss_outcome(
            f,
            source,
            match f.pub_date {
                Some(p) => normalized(p),
                None => Err(SourceError::MissingDate),
            },
        ),
    }
}

fn copy_opt(o: Option<&str>) -> (r: Option<String>)
    ensures
        opt_view(r) == match o {
            Some(s) => Some(s@),
            None => None::<Seq<char>>,
        },
{
    match o {
        Some(s) => Some(s.to_string()),
        None => None,
    }
}

fn tags_of(categories: &Vec<String>) -> (r: Vec<String>)
    ensures
        views(r@) == tag_list(views(categories@)),
{
    if categories.len() > 0 {
        let r = vec![categories[categories.len() - 1].clone()];
        assert(views(r@) =~= tag_list(views(categories@)));
        r
    } else {
        let r: Vec<String> = Vec::new();
        assert(views(r@) =~= tag_list(views(categories@)));
        r
    }
}

fn last_or(list: &Vec<String>, fallback: &str) -> (r: String)
    ensures
        r@ == or_source(last_of(views(list@)), fallback@),
{
    if list.len() > 0 {
        list[list.len() - 1].clone()
    } else {
        fallback.to_string()
    }
}

/// The post made from an Atom entry whose timestamp normalized to `day`.
pub fn atom_post_dated(f: &AtomFields, source: &str, day: Result<String, SourceError>) -> (r:
    Result<CanonicalPost, SourceError>)
    ensures
        post_result_view(r) == atom_outcome(f@, source@, result_view(day)),
{
    let body = match &f.summary {
        Some(s) => s.clone(),
        None => match &f.content {
            Some(c) => c.clone(),
            None => return Err(SourceError::MissingSummary),
        },
    };
    let date = match day {
        Ok(d) => d,
        Err(e) => return Err(e),
    };
    if f.links.len() == 0 {
        return Err(SourceError::MissingField);
    }
    let link = f.links[f.links.len() - 1].clone();
    let p = CanonicalPost {
        title: f.title.clone(),
        date,
        author: last_or(&f.authors, source),
        tags: tags_of(&f.categories),
        original_link: link,
        content: body,
    };
    assert(post_result_view(Ok(p)) == atom_outcome(f@, source@, result_view(day)));
    Ok(p)
}

/// The post made from an RSS item whose publication date normalized to `day`.
pub fn rss_post_dated(f: &RssFields, source: &str, day: Result<String, SourceError>) -> (r: Result<
    CanonicalPost,
    SourceError,
>)
    ensures
        post_result_view(r) == rss_outcome(f@, source@, result_view(day)),
{
    let link = match &f.link {
        Some(l) => l.clone(),
        None => return Err(SourceError::MissingField),
    };
    let title = match &f.title {
        Some(t) => t.clone(),
        None => return Err(SourceError::MissingField),
    };
    let description = match &f.description {
        Some(d) => d.clone(),
        None => return Err(SourceError::MissingSummary),
    };
    if f.pub_date.is_none() {
        return Err(SourceError::MissingDate);
    }
    let date = match day {
        Ok(d) => d,
        Err(e) => return Err(e),
    };
    let author = match &f.author {
        Some(a) => a.clone(),
        None => source.to_string(),
    };
    let p = CanonicalPost {
        title,
        date,
        author,
        tags: tags_of(&f.categories),
        original_link: link,
        content: description,
    };
    assert(post_result_view(Ok(p)) == rss_outcome(f@, source@, result_view(day)));
    Ok(p)
}

impl FeedItem {
    /// The canonical post for this item; `source` stands in for a missing author.
    pub fn to_post(&self, source: &str) -> (r: Result<CanonicalPost, SourceError>)
        ensures
            post_result_view(r) == item_outcome(self@, source@),
    {
        match self {
            FeedItem::Atom(f) => {
                let day = match &f.published {
                    Some(p) => normalize_date(p.as_str()),
                    None => normalize_date(f.updated.as_str()),
                };
                atom_post_dated(f, source, day)
            },
            FeedItem::Rss(f) => {
                let day = match &f.pub_date {
                    Some(p) => normalize_date(p.as_str()),
                    None => Err(SourceError::MissingDate),
                };
                rss_post_dated(f, source, day)
            },
        }
    }
}

fn atom_names(people: &[atom_syndication::Person]) -> Vec<String> {
    let mut out: Vec<String> = Vec::new();
    let mut i: usize = 0;
    while i < people.len()
        decreases people@.len() - i,
    {
        out.push(people[i].name().to_string());
        i += 1;
    }
    out
}

fn atom_hrefs(links: &[atom_syndication::Link]) -> Vec<String> {
    let mut out: Vec<String> = Vec::new();
    let mut i: usize = 0;
    while i < links.len()
        decreases links@.len() - i,
    {
        out.push(links[i].href().to_string());
        i += 1;
    }
    out
}

fn atom_terms(categories: &[atom_syndication::Category]) -> Vec<String> {
    let mut out: Vec<String> = Vec::new();
    let mut i: usize = 0;
    while i < categories.len()
        decreases categories@.len() - i,
    {
        out.push(categories[i].term().to_string());
        i += 1;
    }
    out
}

fn rss_names(categories: &[rss::Category]) -> Vec<String> {
    let mut out: Vec<String> = Vec::new();
    let mut i: usize = 0;
    while i < categories.len()
        decreases categories@.len() - i,
    {
        out.push(categories[i].name().to_string());
        i += 1;
    }
    out
}

/// Reads an Atom entry into plain values.
fn atom_item(entry: &atom_syndication::Entry) -> FeedItem {
    let content = match entry.content() {
        Some(c) => copy_opt(c.value()),
        None => None,
    };
    FeedItem::Atom(
        AtomFields {
            title: entry.title().to_string(),
            summary: copy_opt(entry.summary()),
            content,
            authors: atom_names(entry.authors()),
            published: copy_opt(entry.published()),
            updated: entry.updated().to_string(),
            links: atom_hrefs(entry.links()),
            categories: atom_terms(entry.categories()),
        },
    )
}

/// Reads an RSS item into plain values.
fn rss_item(item: &rss::Item) -> FeedItem {
    FeedItem::Rss(
        RssFields {
            title: copy_opt(item.title()),
            link: copy_opt(item.link()),
            description: copy_opt(item.description()),
            author: copy_opt(item.author()),
            pub_date: copy_opt(item.pub_date()),
            categories: rss_names(item.categories()),
        },
    )
}

/// Parses feed text into its items, in document order. Fails with
/// `UnsupportedFeedFormat` when the text is neither Atom nor RSS, or when it names
/// the update schedule of the RSS syndication extension, which is not read.
pub fn feed_items(text: &str) -> (r: Result<Vec<FeedItem>, SourceError>)
    ensures
        mentions_update_schedule(text) || parsed_items(text@) is None <==> r is Err,
        r is Err ==> r == Err::<Vec<FeedItem>, SourceError>(SourceError::UnsupportedFeedFormat),
        r matches Ok(v) ==> parsed_items(text@) == Some(item_views(v@)),
{
    if has_update_schedule(text) {
        return Err(SourceError::UnsupportedFeedFormat);
    }
    match parse_feed(text) {
        None => Err(SourceError::UnsupportedFeedFormat),
        Some(items) => Ok(items),
    }
}

/// The posts of a source, in order, up to its first item that fails, and that
/// failure.
pub struct FeedOutcome {
    pub posts: Vec<CanonicalPost>,
    pub error: Option<SourceError>,
}

/// `r` holds the posts of `items` in order, up to the first item that fails, and
/// that item's failure; with no failure, the posts of all items.
pub open spec fn collected(items: Seq<ItemView>, source: Seq<char>, r: FeedOutcome) -> bool {
    &&& r.posts@.len() <= items.len()
    &&& forall|j: int|
        0 <= j < r.posts@.len() ==> item_outcome(#[trigger] items[j], source) == Ok::<
            PostView,
            SourceError,
        >(r.posts@[j]@)
    &&& (r.error is None ==> r.posts@.len() == items.len())
    &&& (r.error matches Some(e) ==> r.posts@.len() < items.len() && item_outcome(
        items[r.posts@.len() as int],
        source,
    ) == Err::<PostView, SourceError>(e))
}

/// Turns items into posts in order, stopping at the first item that fails.
pub fn posts_from_items(items: &Vec<FeedItem>, source: &str) -> (r: FeedOutcome)
    ensures
        collected(item_views(items@), source@, r),
{
    let mut posts: Vec<CanonicalPost> = Vec::new();
    let mut i: usize = 0;
    while i < items.len()
        invariant
            i <= items@.len(),
            posts@.len() == i,
            forall|j: int|
                0 <= j < i ==> item_outcome(#[trigger] item_views(items@)[j], source@) == Ok::<
                    PostView,
                    SourceError,
                >(posts@[j]@),
        decreases items@.len() - i,
    {
        match items[i].to_post(source) {
            Ok(p) => {
                posts.push(p);
            },
            Err(e) => {
                return FeedOutcome { posts, error: Some(e) };
            },
        }
        i += 1;
    }
    FeedOutcome { posts, error: None }
}

/// Parses a feed and turns its items into posts, stopping at the first item that
/// fails; `source` stands in for missing authors.
pub fn feed_posts(text: &str, source: &str) -> (r: FeedOutcome)
    ensures
        mentions_update_schedule(text) || parsed_items(text@) is None ==> r.error == Some(
            SourceError::UnsupportedFeedFormat,
        ) && r.posts@.len() == 0,
        !mentions_update_schedule(text) ==> match parsed_items(text@) {
            Some(items) => collected(items, source@, r),
            None => true,
        },
{
    match feed_items(text) {
        Err(e) => FeedOutcome { posts: Vec::new(), error: Some(e) },
        Ok(items) => posts_from_items(&items, source),
    }
}

} // verus!
