use disc::batch::{Batch, Failure};
use disc::config::{source_list, sources_from_entries, ConfigError};
use disc::error::SourceError;
use disc::source::{classify, plan, SourceKind};
use disc::sync::{default_branch, GitSync, MergeRelation, SyncAction, SyncEvent, SyncPhase};

#[test]
fn sources_are_routed_by_suffix_and_scheme() {
    assert_eq!(classify("https://gitlab.com/kalikiana/kalikiana.gitlab.io.git"), Ok(SourceKind::Git));
    assert_eq!(classify("https://example.com/feed.xml"), Ok(SourceKind::RemoteFeed));
    assert_eq!(classify("./example.rss.xml"), Ok(SourceKind::LocalFeed));
    assert_eq!(classify("http://example.com/file.txt"), Err(SourceError::UnsupportedSourceKind));
    assert_eq!(classify("https://example.com/feed"), Err(SourceError::UnsupportedSourceKind));
}

#[test]
fn unknown_source_kind_gets_no_cache_dir() {
    let r = plan("http://example.com/file.txt");
    assert_eq!(r.unwrap_err(), SourceError::UnsupportedSourceKind);
    assert_eq!(SourceError::UnsupportedSourceKind.message(), "unknown blog type");
}

#[test]
fn cache_dir_replaces_slashes() {
    let blog = "https://gitlab.com/kalikiana/kalikiana.gitlab.io.git";
    let p = plan(blog).unwrap();
    assert_eq!(p.kind, SourceKind::Git);
    assert_eq!(p.cache_dir, blog.replace("/", "-"));
    assert_eq!(p.cache_dir, "https:--gitlab.com-kalikiana-kalikiana.gitlab.io.git");
}

fn drive(sync: &mut GitSync, events: &[SyncEvent]) -> Vec<SyncAction> {
    events.iter().map(|e| sync.step(e)).collect()
}

#[test]
fn first_sync_clones_and_second_is_up_to_date() {
    let (mut first, a) = GitSync::new();
    assert_eq!(a, SyncAction::Inspect);
    let acts = drive(&mut first, &[SyncEvent::Inspected { has_repository: false }, SyncEvent::Cloned { error: None }]);
    assert_eq!(acts, vec![SyncAction::Clone, SyncAction::Done]);
    let (mut second, _) = GitSync::new();
    let acts = drive(
        &mut second,
        &[
            SyncEvent::Inspected { has_repository: true },
            SyncEvent::ResetDone { error: None },
            SyncEvent::DefaultBranch { target: Some("refs/remotes/origin/main".to_string()) },
            SyncEvent::Fetched { error: None },
            SyncEvent::Analyzed { relation: Ok(MergeRelation::UpToDate) },
        ],
    );
    assert_eq!(
        acts,
        vec![SyncAction::Reset, SyncAction::ResolveDefaultBranch, SyncAction::Fetch, SyncAction::Analyze, SyncAction::Done]
    );
    assert_eq!(second.branch, "main");
    assert_eq!(second.phase, SyncPhase::Finished);
}

#[test]
fn sync_fast_forwards_and_skips_diverged() {
    let (mut s, _) = GitSync::new();
    let acts = drive(
        &mut s,
        &[
            SyncEvent::Inspected { has_repository: true },
            SyncEvent::ResetDone { error: None },
            SyncEvent::DefaultBranch { target: None },
            SyncEvent::Fetched { error: None },
            SyncEvent::Analyzed { relation: Ok(MergeRelation::FastForward) },
            SyncEvent::FastForwarded { error: None },
        ],
    );
    assert_eq!(s.branch, "master");
    assert_eq!(acts[4], SyncAction::FastForward);
    assert_eq!(acts[5], SyncAction::Done);
    let (mut d, _) = GitSync::new();
    d.phase = SyncPhase::Analyzing;
    assert_eq!(d.step(&SyncEvent::Analyzed { relation: Ok(MergeRelation::Diverged) }), SyncAction::Done);
}

#[test]
fn sync_failures() {
    let (mut s, _) = GitSync::new();
    let acts = drive(&mut s, &[SyncEvent::Inspected { has_repository: false }, SyncEvent::Cloned { error: Some("could not resolve host".to_string()) }]);
    assert_eq!(acts[1], SyncAction::Fail(SourceError::CloneFailed));
    assert_eq!(s.cause, "could not resolve host");
    let (mut s, _) = GitSync::new();
    let acts = drive(
        &mut s,
        &[SyncEvent::Inspected { has_repository: true }, SyncEvent::ResetDone { error: None }, SyncEvent::DefaultBranch { target: None }, SyncEvent::Fetched { error: Some("remote hung up".to_string()) }],
    );
    assert_eq!(acts[3], SyncAction::Fail(SourceError::FetchFailed));
    assert_eq!(s.cause, "remote hung up");
    let (mut s, _) = GitSync::new();
    assert_eq!(s.step(&SyncEvent::Fetched { error: None }), SyncAction::Fail(SourceError::FetchFailed));
}

#[test]
fn default_branch_names() {
    assert_eq!(default_branch(&None), "master");
    assert_eq!(default_branch(&Some("refs/remotes/origin/develop".to_string())), "develop");
    assert_eq!(default_branch(&Some("trunk".to_string())), "trunk");
}

#[test]
fn one_unreachable_source_does_not_stop_the_batch() {
    let sources = vec!["a.xml".to_string(), "b.git".to_string(), "c.xml".to_string()];
    let mut batch = Batch::new(sources);
    let outcomes = vec![Ok(()), Err(SourceError::FetchFailed), Ok(())];
    let mut attempted = Vec::new();
    let mut i = 0;
    while let Some(s) = batch.next_source() {
        attempted.push(s);
        batch.record(outcomes[i]);
        i += 1;
    }
    assert_eq!(attempted, vec!["a.xml", "b.git", "c.xml"]);
    assert_eq!(batch.attempted(), 3);
    assert_eq!(batch.failures(), &vec![Failure { index: 1, error: SourceError::FetchFailed }]);
}

#[test]
fn config_lists_sources() {
    assert_eq!(source_list("blogs: [blog1]"), Ok(vec!["blog1".to_string()]));
    assert_eq!(source_list("blogs:\n  - a.git\n  - b.xml\n"), Ok(vec!["a.git".to_string(), "b.xml".to_string()]));
    assert_eq!(source_list("other: 1"), Err(ConfigError::MissingSources));
    assert_eq!(source_list("blogs: [[1]]"), Err(ConfigError::InvalidSource));
    assert_eq!(source_list("blogs: [a"), Err(ConfigError::InvalidYaml));
    assert_eq!(sources_from_entries(&vec![Some("x".to_string()), None]), Err(ConfigError::InvalidSource));
    assert_eq!(ConfigError::MissingSources.message(), "the configuration has no list of blogs");
}
