use disc::date::{normalize_date, resolve_date, CalendarDate};
use disc::error::SourceError;
use disc::matter::decode;
use disc::post::CanonicalPost;
use std::collections::HashMap;

fn make_post(title: &str, summary: &str, tags: &[&str], author: &str, date: &str, orig: &str) -> CanonicalPost {
    CanonicalPost {
        title: title.to_string(),
        date: date.to_string(),
        author: author.to_string(),
        tags: tags.iter().map(|t| t.to_string()).collect(),
        original_link: orig.to_string(),
        content: summary.to_string(),
    }
}

#[test]
fn test_post() {
    let posts = vec![
        make_post(
            "Lorem ipsum",
            "Dolor sit amet",
            &["lorem", "ipsum"],
            "Cicero",
            "2021-11-29T14:48:11+02:00",
            "http://example.com/2021-11-29-lorem-ipsum",
        ),
        make_post(
            "Sed ut perspiciatis",
            "unde omnis iste natus error",
            &["perspiciatis"],
            "Cicero",
            "Sat, 27 Nov 2021 15:32:10 +0100",
            "http://example.com/2021-11-29-sed-ut-perspiciatis",
        ),
        make_post(
            "Robert'); DROP TABLE Students; --",
            "Exploits of a mom",
            &["bobby tables"],
            "Little Bobby Tables",
            "Mon, 11 Jun 1999",
            "https://xkcd.com/327/",
        ),
        make_post(
            "Why ./ is better than \\",
            "The path is the goal",
            &[],
            "",
            "2021-11-29",
            "http://example.com/path/to/happiness",
        ),
    ];
    let names: Vec<String> = posts.iter().map(|p| p.file_name()).collect();
    assert_eq!(names[0], "2021-11-29T14:48:11+02:00-Lorem ipsum.md");
    assert_eq!(names[1], "Sat, 27 Nov 2021 15:32:10 +0100-Sed ut perspiciatis.md");
    assert_eq!(names[2], "Mon, 11 Jun 1999-Robert'); DROP TABLE Students; --.md");
    assert_eq!(names[3], "2021-11-29-Why .- is better than \\.md");
    assert_eq!(
        posts[0].render(),
        "---\ntitle: 'Lorem ipsum'\ndate: 2021-11-29T14:48:11+02:00\nauthor: Cicero\ntags: [lorem, ipsum]\noriginal_link: http://example.com/2021-11-29-lorem-ipsum\n---\nDolor sit amet"
    );
    assert_eq!(
        posts[2].render(),
        "---\ntitle: 'Robert''); DROP TABLE Students; --'\ndate: Mon, 11 Jun 1999\nauthor: Little Bobby Tables\ntags: [bobby tables]\noriginal_link: https://xkcd.com/327/\n---\nExploits of a mom"
    );
    assert_eq!(
        posts[3].render(),
        "---\ntitle: 'Why ./ is better than \\'\ndate: 2021-11-29\nauthor: \ntags: []\noriginal_link: http://example.com/path/to/happiness\n---\nThe path is the goal"
    );
}

#[test]
fn writing_a_post_twice_leaves_one_file() {
    let p = make_post("Lorem ipsum", "Dolor sit amet", &["lorem"], "Cicero", "2021-11-29", "http://example.com/a");
    let mut dir: HashMap<String, String> = HashMap::new();
    dir.insert(p.file_name(), p.render());
    let once = dir.clone();
    dir.insert(p.file_name(), p.render());
    assert_eq!(dir, once);
    assert_eq!(dir.len(), 1);
    assert_eq!(dir["2021-11-29-Lorem ipsum.md"], p.render());
}

#[test]
fn slash_in_title_stays_in_one_file_name() {
    let p = make_post("A/B", "body", &[], "me", "2021-01-01", "http://example.com/ab");
    assert_eq!(p.file_name(), "2021-01-01-A-B.md");
}

#[test]
fn quotes_in_title_are_doubled_and_decode_back() {
    let p = make_post("It's Bob's", "body text", &[], "me", "2021-01-01", "http://example.com/b");
    let text = p.render();
    assert!(text.contains("title: 'It''s Bob''s'\n"));
    let m = decode(&text).unwrap();
    assert_eq!(m.title, "It's Bob's");
    assert_eq!(m.date, "2021-01-01");
    assert_eq!(m.author.as_deref(), Some("me"));
    assert_eq!(m.original_link.as_deref(), Some("http://example.com/b"));
    assert_eq!(m.body, "body text");
}

#[test]
fn dates_normalize_from_either_format() {
    assert_eq!(normalize_date("Sat, 27 Nov 2021 15:32:10 +0100"), Ok("2021-11-27".to_string()));
    assert_eq!(normalize_date("2021-11-29T14:48:11+02:00"), Ok("2021-11-29".to_string()));
    assert_eq!(normalize_date("Mon, 11 Jun 1999"), Err(SourceError::UnparsableDate));
    assert_eq!(normalize_date("yesterday"), Err(SourceError::UnparsableDate));
}

#[test]
fn resolved_date_prefers_the_first_parse_and_pads() {
    let a = CalendarDate { year: 987, month: 3, day: 4 };
    let b = CalendarDate { year: 2021, month: 11, day: 29 };
    assert_eq!(resolve_date(Some(a), Some(b)), Ok("0987-03-04".to_string()));
    assert_eq!(resolve_date(None, Some(b)), Ok("2021-11-29".to_string()));
    assert_eq!(resolve_date(None, None), Err(SourceError::UnparsableDate));
    let far = CalendarDate { year: 12021, month: 1, day: 2 };
    assert_eq!(far.to_iso(), "+12021-01-02");
    let early = CalendarDate { year: -5, month: 12, day: 31 };
    assert_eq!(early.to_iso(), "-0005-12-31");
}

#[test]
fn front_matter_errors() {
    assert_eq!(decode("no front matter here").unwrap_err(), SourceError::InvalidFrontMatter);
    assert_eq!(decode("---\ntitle: Only a title\n---\nbody").unwrap_err(), SourceError::MissingField);
    assert_eq!(decode("---\ndate: 2021-01-01\n---\nbody").unwrap_err(), SourceError::MissingField);
    assert_eq!(decode("---\ntitle: [unclosed\n---\nbody").unwrap_err(), SourceError::InvalidFrontMatter);
    assert_eq!(decode("---\n- a list\n---\nbody").unwrap_err(), SourceError::InvalidFrontMatter);
    let m = decode("---\ntitle: Home\ndate: 2021-01-01\n---\nintro\n<!--more-->\nrest").unwrap();
    assert_eq!(m.title, "Home");
    assert_eq!(m.body, "intro\n<!--more-->\nrest");
}

#[test]
fn mirrored_document_becomes_a_post() {
    let source = "https://example.com/blog.git";
    let p = disc::matter::git_post("---\ntitle: Hello\ndate: 2021-05-06\n---\nWorld", source).unwrap();
    assert_eq!(p.title, "Hello");
    assert_eq!(p.date, "2021-05-06");
    assert_eq!(p.author, source);
    assert_eq!(p.original_link, source);
    assert!(p.tags.is_empty());
    assert_eq!(p.content, "World");
}
