//! Keeping a local git mirror up to date: clone when absent; otherwise reset, fetch
//! the default branch and move forward only where that is a fast-forward. The
//! decisions stand here; the caller performs each action and reports what happened.

use crate::error::SourceError;
use crate::text::{has_prefix, starts_with};
use vstd::prelude::*;

verus! {

/// How the local head relates to the fetched commit.
#[derive(Clone, Copy, Debug, PartialEq, Eq, Structural)]
pub enum MergeRelation {
    UpToDate,
    FastForward,
    /// Histories have diverged: left as it is.
    Diverged,
}

/// Where a synchronization stands.
#[derive(Clone, Copy, Debug, PartialEq, Eq, Structural)]
pub enum SyncPhase {
    Inspecting,
    Cloning,
    Resetting,
    Resolving,
    Fetching,
    Analyzing,
    FastForwarding,
    Finished,
}

/// What the caller is asked to do next.
#[derive(Clone, Copy, Debug, PartialEq, Eq, Structural)]
pub enum SyncAction {
    /// Tell whether the mirror path holds a repository.
    Inspect,
    /// Clone the remote into the mirror path.
    Clone,
    /// Hard-reset the working tree to `HEAD`.
    Reset,
    /// Read the symbolic target of `refs/remotes/origin/HEAD`.
    ResolveDefaultBranch,
    /// Fetch the branch from `origin`.
    Fetch,
    /// Analyze a merge of the fetched commit into the local head.
    Analyze,
    /// Point the local branch at the fetched commit and force a checkout.
    FastForward,
    /// Stop: the mirror is up to date, or left as it is.
    Done,
    /// Stop with this error.
    Fail(SourceError),
}

/// What the caller found when it performed the last action. A failed git
/// operation carries its cause as text.
#[derive(Debug)]
pub enum SyncEvent {
    Inspected { has_repository: bool },
    Cloned { error: Option<String> },
    ResetDone { error: Option<String> },
    /// The symbolic target of the remote's `HEAD`, where there is one.
    DefaultBranch { target: Option<String> },
    Fetched { error: Option<String> },
    Analyzed { relation: Result<MergeRelation, String> },
    FastForwarded { error: Option<String> },
}

/// The prefix of a remote-tracking reference of `origin`.
pub open spec fn remote_prefix() -> Seq<char> {
    "refs/remotes/origin/"@
}

/// The branch to fetch: the default branch's short name, `master` when it cannot
/// be discovered.
pub open spec fn branch_of(target: Option<Seq<char>>) -> Seq<char> {
    match target {
        None => "master"@,
        Some(t) => if has_prefix(t, remote_prefix()) {
            t.subrange(remote_prefix().len() as int, t.len() as int)
        } else {
            t
        },
    }
}

pub open spec fn stop(e: SourceError) -> (SyncPhase, SyncAction) {
    (SyncPhase::Finished, SyncAction::Fail(e))
}

pub open spec fn done() -> (SyncPhase, SyncAction) {
    (SyncPhase::Finished, SyncAction::Done)
}

/// The next phase and action. An event that does not answer the phase's action
/// ends the synchronization with `FetchFailed`.
pub open spec fn next_step(phase: SyncPhase, event: SyncEvent) -> (SyncPhase, SyncAction) {
    match (phase, event) {
        (SyncPhase::Inspecting, SyncEvent::Inspected { has_repository }) => if has_repository {
            (SyncPhase::Resetting, SyncAction::Reset)
        } else {
            (SyncPhase::Cloning, SyncAction::Clone)
        },
        (SyncPhase::Cloning, SyncEvent::Cloned { error }) => if error is None {
            done()
        } else {
            stop(SourceError::CloneFailed)
        },
        (SyncPhase::Resetting, SyncEvent::ResetDone { error }) => if error is None {
            (SyncPhase::Resolving, SyncAction::ResolveDefaultBranch)
        } else {
            stop(SourceError::FetchFailed)
        },
        (SyncPhase::Resolving, SyncEvent::DefaultBranch { target: _ }) => (
            SyncPhase::Fetching,
            SyncAction::Fetch,
        ),
        (SyncPhase::Fetching, SyncEvent::Fetched { error }) => if error is None {
            (SyncPhase::Analyzing, SyncAction::Analyze)
        } else {
            stop(SourceError::FetchFailed)
        },
        (SyncPhase::Analyzing, SyncEvent::Analyzed { relation }) => match relation {
            Ok(MergeRelation::UpToDate) => done(),
            Ok(MergeRelation::FastForward) => (SyncPhase::FastForwarding, SyncAction::FastForward),
            Ok(MergeRelation::Diverged) => done(),
            Err(_) => stop(SourceError::FetchFailed),
        },
        (SyncPhase::FastForwarding, SyncEvent::FastForwarded { error }) => if error is None {
            done()
        } else {
            stop(SourceError::FetchFailed)
        },
        _ => stop(SourceError::FetchFailed),
    }
}

/// The cause that an event reports for the phase's action, if it failed.
pub open spec fn failure_of(phase: SyncPhase, event: SyncEvent) -> Option<Seq<char>> {
    match (phase, event) {
        (SyncPhase::Cloning, SyncEvent::Cloned { error: Some(c) }) => Some(c@),
        (SyncPhase::Resetting, SyncEvent::ResetDone { error: Some(c) }) => Some(c@),
        (SyncPhase::Fetching, SyncEvent::Fetched { error: Some(c) }) => Some(c@),
        (SyncPhase::Analyzing, SyncEvent::Analyzed { relation: Err(c) }) => Some(c@),
        (SyncPhase::FastForwarding, SyncEvent::FastForwarded { error: Some(c) }) => Some(c@),
        _ => None,
    }
}

pub open spec fn target_view(target: Option<String>) -> Option<Seq<char>> {
    match target {
        Some(t) => Some(t@),
        None => None,
    }
}

/// The branch after an event: set when the default branch is resolved.
pub open spec fn branch_after(phase: SyncPhase, event: SyncEvent, branch: Seq<char>) -> Seq<char> {
    match (phase, event) {
        (SyncPhase::Resolving, SyncEvent::DefaultBranch { target }) => branch_of(
            target_view(target),
        ),
        _ => branch,
    }
}

/// The short name of the default branch, from the symbolic target of
/// `refs/remotes/origin/HEAD`.
pub fn default_branch(target: &Option<String>) -> (r: String)
    ensures
        r@ == branch_of(target_view(*target)),
{
    match target {
        None => {
            let r = "master".to_string();
            r
        },
        Some(t) => {
            let prefix = "refs/remotes/origin/";
            if starts_with(t.as_str(), prefix) {
                let n = t.as_str().unicode_len();
                let m = prefix.unicode_len();
                t.as_str().substring_char(m, n).to_string()
            } else {
                t.clone()
            }
        },
    }
}

/// A synchronization in progress: its phase, and the branch once it is known.
pub struct GitSync {
    pub phase: SyncPhase,
    pub branch: String,
    /// Why the last failed git operation failed.
    pub cause: String,
}

impl GitSync {
    /// A synchronization that starts by inspecting the mirror path.
    pub fn new() -> (r: (GitSync, SyncAction))
        ensures
            r.0.phase == SyncPhase::Inspecting,
            r.1 == SyncAction::Inspect,
    {
        (GitSync {
            phase: SyncPhase::Inspecting,
            branch: String::new(),
            cause: String::new(),
        }, SyncAction::Inspect)
    }

    /// Takes in what the last action found and returns the next action; the cause
    /// of a failed git operation is kept in `cause`.
    pub fn step(&mut self, event: &SyncEvent) -> (r: SyncAction)
        ensures
            (final(self).phase, r) == next_step(old(self).phase, *event),
            final(self).branch@ == branch_after(old(self).phase, *event, old(self).branch@),
            final(self).cause@ == match failure_of(old(self).phase, *event) {
                Some(c) => c,
                None => old(self).cause@,
            },
    {
        let (phase, action) = match (self.phase, event) {
            (SyncPhase::Inspecting, SyncEvent::Inspected { has_repository }) => if *has_repository {
                (SyncPhase::Resetting, SyncAction::Reset)
            } else {
                (SyncPhase::Cloning, SyncAction::Clone)
            },
            (SyncPhase::Cloning, SyncEvent::Cloned { error }) => match error {
                None => (SyncPhase::Finished, SyncAction::Done),
                Some(c) => {
                    self.cause = c.clone();
                    (SyncPhase::Finished, SyncAction::Fail(SourceError::CloneFailed))
                },
            },
            (SyncPhase::Resetting, SyncEvent::ResetDone { error }) => match error {
                None => (SyncPhase::Resolving, SyncAction::ResolveDefaultBranch),
                Some(c) => {
                    self.cause = c.clone();
                    (SyncPhase::Finished, SyncAction::Fail(SourceError::FetchFailed))
                },
            },
            (SyncPhase::Resolving, SyncEvent::DefaultBranch { target }) => {
                self.branch = default_branch(target);
                (SyncPhase::Fetching, SyncAction::Fetch)
            },
            (SyncPhase::Fetching, SyncEvent::Fetched { error }) => match error {
                None => (SyncPhase::Analyzing, SyncAction::Analyze),
                Some(c) => {
                    self.cause = c.clone();
                    (SyncPhase::Finished, SyncAction::Fail(SourceError::FetchFailed))
                },
            },
            (SyncPhase::Analyzing, SyncEvent::Analyzed { relation }) => match relation {
                Ok(MergeRelation::UpToDate) => (SyncPhase::Finished, SyncAction::Done),
                Ok(MergeRelation::FastForward) => (
                    SyncPhase::FastForwarding,
                    SyncAction::FastForward,
                ),
                Ok(MergeRelation::Diverged) => (SyncPhase::Finished, SyncAction::Done),
                Err(c) => {
                    self.cause = c.clone();
                    (SyncPhase::Finished, SyncAction::Fail(SourceError::FetchFailed))
                },
            },
            (SyncPhase::FastForwarding, SyncEvent::FastForwarded { error }) => match error {
                None => (SyncPhase::Finished, SyncAction::Done),
                Some(c) => {
                    self.cause = c.clone();
                    (SyncPhase::Finished, SyncAction::Fail(SourceError::FetchFailed))
                },
            },
            _ => (SyncPhase::Finished, SyncAction::Fail(SourceError::FetchFailed)),
        };
        self.phase = phase;
        action
    }
}

/// A mirror as far as synchronization is concerned: whether it exists, the commit
/// its branch points at, and whether its working tree matches that commit.
pub ghost struct Mirror {
    pub present: bool,
    pub head: int,
    pub clean: bool,
}

/// What performing `action` on mirror `m` finds, with the remote at commit
/// `remote` (whose history holds the mirror's) and its default branch `target`.
pub open spec fn respond(m: Mirror, remote: int, target: Option<String>, action: SyncAction) -> SyncEvent {
    match action {
        SyncAction::Inspect => SyncEvent::Inspected { has_repository: m.present },
        SyncAction::Clone => SyncEvent::Cloned { error: None },
        SyncAction::Reset => SyncEvent::ResetDone { error: None },
        SyncAction::ResolveDefaultBranch => SyncEvent::DefaultBranch { target },
        SyncAction::Analyze => SyncEvent::Analyzed {
            relation: Ok(
                if m.head == remote {
                    MergeRelation::UpToDate
                } else {
                    MergeRelation::FastForward
                },
            ),
        },
        SyncAction::FastForward => SyncEvent::FastForwarded { error: None },
        _ => SyncEvent::Fetched { error: None },
    }
}

/// The mirror after `action` is performed on it.
pub open spec fn effect(m: Mirror, remote: int, action: SyncAction) -> Mirror {
    match action {
        SyncAction::Clone => Mirror { present: true, head: remote, clean: true },
        SyncAction::Reset => Mirror { clean: true, ..m },
        SyncAction::FastForward => Mirror { head: remote, clean: true, ..m },
        _ => m,
    }
}

/// Drives a synchronization against a mirror for at most `fuel` steps: the mirror
/// at the end and the actions performed, the last one included.
pub open spec fn run(
    phase: SyncPhase,
    action: SyncAction,
    m: Mirror,
    remote: int,
    target: Option<String>,
    fuel: nat,
) -> (Mirror, Seq<SyncAction>)
    decreases fuel,
{
    if fuel == 0 || action is Done || action is Fail {
        (m, seq![action])
    } else {
        let event = respond(m, remote, target, action);
        let next = next_step(phase, event);
        let rest = run(next.0, next.1, effect(m, remote, action), remote, target, (fuel - 1) as nat);
        (rest.0, seq![action] + rest.1)
    }
}

/// Synchronizing twice against an unchanged remote clones on the first run and,
/// on the second, finds the mirror up to date: no clone, no fast-forward, and the
/// mirror stays as the first run left it.
pub proof fn lemma_second_sync_is_noop(m: Mirror, remote: int, target: Option<String>)
    requires
        !m.present,
    ensures
        ({
            let first = run(SyncPhase::Inspecting, SyncAction::Inspect, m, remote, target, 8);
            let second = run(
                SyncPhase::Inspecting,
                SyncAction::Inspect,
                first.0,
                remote,
                target,
                8,
            );
            &&& first.1 == seq![SyncAction::Inspect, SyncAction::Clone, SyncAction::Done]
            &&& first.0 == Mirror { present: true, head: remote, clean: true }
            &&& second.1 == seq![
                SyncAction::Inspect,
                SyncAction::Reset,
                SyncAction::ResolveDefaultBranch,
                SyncAction::Fetch,
                SyncAction::Analyze,
                SyncAction::Done,
            ]
            &&& second.0 == first.0
        }),
{
    reveal_with_fuel(run, 8);
    let first = run(SyncPhase::Inspecting, SyncAction::Inspect, m, remote, target, 8);
    assert(first.1 =~= seq![SyncAction::Inspect, SyncAction::Clone, SyncAction::Done]);
    let second = run(SyncPhase::Inspecting, SyncAction::Inspect, first.0, remote, target, 8);
    assert(second.1 =~= seq![
        SyncAction::Inspect,
        SyncAction::Reset,
        SyncAction::ResolveDefaultBranch,
        SyncAction::Fetch,
        SyncAction::Analyze,
        SyncAction::Done,
    ]);
}

} // verus!
