use vstd::prelude::*;

verus! {

/// Why a synchronisation ended without success.
#[derive(Debug, Clone, Copy, PartialEq, Eq, Structural)]
pub enum SyncFailure {
    /// The profile has no remote to synchronise with.
    NoRemoteConfigured,
    /// Fetching or pushing failed on the network; trying again may succeed.
    Network,
    /// Committing the local changes failed.
    Commit,
    /// Local and remote history both advanced; the user has to reconcile.
    Conflict,
}

/// How local history stands to the fetched remote history.
#[derive(Debug, Clone, Copy, PartialEq, Eq, Structural)]
pub enum Divergence {
    /// Both point at the same commit.
    Equal,
    /// The remote has commits that local lacks, and not the other way.
    Behind,
    /// Local has commits that the remote lacks, and not the other way.
    Ahead,
    /// Each has commits that the other lacks.
    Diverged,
}

/// Where a synchronisation stands.
#[derive(Debug, Clone, Copy, PartialEq, Eq, Structural)]
pub enum SyncState {
    Idle,
    Fetching,
    Committing,
    Merging,
    FastForwarding,
    Pushing,
    Done,
    Failed(SyncFailure),
}

/// What the repository reported back after the last action.
#[derive(Debug, Clone, Copy, PartialEq, Eq, Structural)]
pub enum SyncEvent {
    /// Synchronisation was asked for; says whether a remote is configured.
    Start { has_remote: bool },
    /// The fetch succeeded; says whether the worktree has uncommitted changes.
    Fetched { dirty: bool },
    FetchFailed,
    Committed,
    CommitFailed,
    /// The histories were compared.
    Compared(Divergence),
    FastForwarded,
    Pushed,
    PushFailed,
}

/// What the caller is to do next.
#[derive(Debug, Clone, Copy, PartialEq, Eq, Structural)]
pub enum SyncAction {
    Fetch,
    /// Stage and commit the worktree's changes.
    Commit,
    /// Compare local history with the fetched one.
    Compare,
    /// Move local history and the worktree forward to the remote's.
    FastForward,
    Push,
    /// Report success.
    Finish,
    /// Report the failure.
    Fail(SyncFailure),
    /// The event does not belong to this state: nothing to do.
    Ignore,
}

impl SyncState {
    pub open spec fn is_terminal(self) -> bool {
        self is Done || self is Failed
    }
}

/// One step of the protocol: fetch, commit local changes before anything of
/// the remote is integrated, then fast-forward or push, and refuse diverged
/// histories.
pub open spec fn step(s: SyncState, e: SyncEvent) -> (SyncState, SyncAction) {
    match (s, e) {
        (SyncState::Idle, SyncEvent::Start { has_remote }) => if has_remote {
            (SyncState::Fetching, SyncAction::Fetch)
        } else {
            (SyncState::Failed(SyncFailure::NoRemoteConfigured), SyncAction::Fail(SyncFailure::NoRemoteConfigured))
        },
        (SyncState::Fetching, SyncEvent::FetchFailed) => (SyncState::Failed(SyncFailure::Network), SyncAction::Fail(SyncFailure::Network)),
        (SyncState::Fetching, SyncEvent::Fetched { dirty }) => if dirty {
            (SyncState::Committing, SyncAction::Commit)
        } else {
            (SyncState::Merging, SyncAction::Compare)
        },
        (SyncState::Committing, SyncEvent::Committed) => (SyncState::Merging, SyncAction::Compare),
        (SyncState::Committing, SyncEvent::CommitFailed) => (SyncState::Failed(SyncFailure::Commit), SyncAction::Fail(SyncFailure::Commit)),
        (SyncState::Merging, SyncEvent::Compared(d)) => match d {
            Divergence::Equal => (SyncState::Done, SyncAction::Finish),
            Divergence::Behind => (SyncState::FastForwarding, SyncAction::FastForward),
            Divergence::Ahead => (SyncState::Pushing, SyncAction::Push),
            Divergence::Diverged => (SyncState::Failed(SyncFailure::Conflict), SyncAction::Fail(SyncFailure::Conflict)),
        },
        (SyncState::FastForwarding, SyncEvent::FastForwarded) => (SyncState::Done, SyncAction::Finish),
        (SyncState::Pushing, SyncEvent::Pushed) => (SyncState::Done, SyncAction::Finish),
        (SyncState::Pushing, SyncEvent::PushFailed) => (SyncState::Failed(SyncFailure::Network), SyncAction::Fail(SyncFailure::Network)),
        _ => (s, SyncAction::Ignore),
    }
}

/// The state reached from `s` through `events`, and the actions asked for on
/// the way.
pub open spec fn run(s: SyncState, events: Seq<SyncEvent>) -> (SyncState, Seq<SyncAction>)
    decreases events.len(),
{
    if events.len() == 0 {
        (s, Seq::empty())
    } else {
        let (next, a) = step(s, events[0]);
        let (last, rest) = run(next, events.drop_first());
        (last, seq![a] + rest)
    }
}

/// Advances the protocol by one event.
pub fn sync_step(s: SyncState, e: SyncEvent) -> (r: (SyncState, SyncAction))
    ensures
        r == step(s, e),
{
    match (s, e) {
        (SyncState::Idle, SyncEvent::Start { has_remote }) => if has_remote {
            (SyncState::Fetching, SyncAction::Fetch)
        } else {
            (SyncState::Failed(SyncFailure::NoRemoteConfigured), SyncAction::Fail(SyncFailure::NoRemoteConfigured))
        },
        (SyncState::Fetching, SyncEvent::FetchFailed) => (SyncState::Failed(SyncFailure::Network), SyncAction::Fail(SyncFailure::Network)),
        (SyncState::Fetching, SyncEvent::Fetched { dirty }) => if dirty {
            (SyncState::Committing, SyncAction::Commit)
        } else {
            (SyncState::Merging, SyncAction::Compare)
        },
        (SyncState::Committing, SyncEvent::Committed) => (SyncState::Merging, SyncAction::Compare),
        (SyncState::Committing, SyncEvent::CommitFailed) => (SyncState::Failed(SyncFailure::Commit), SyncAction::Fail(SyncFailure::Commit)),
        (SyncState::Merging, SyncEvent::Compared(d)) => match d {
            Divergence::Equal => (SyncState::Done, SyncAction::Finish),
            Divergence::Behind => (SyncState::FastForwarding, SyncAction::FastForward),
            Divergence::Ahead => (SyncState::Pushing, SyncAction::Push),
            Divergence::Diverged => (SyncState::Failed(SyncFailure::Conflict), SyncAction::Fail(SyncFailure::Conflict)),
        },
        (SyncState::FastForwarding, SyncEvent::FastForwarded) => (SyncState::Done, SyncAction::Finish),
        (SyncState::Pushing, SyncEvent::Pushed) => (SyncState::Done, SyncAction::Finish),
        (SyncState::Pushing, SyncEvent::PushFailed) => (SyncState::Failed(SyncFailure::Network), SyncAction::Fail(SyncFailure::Network)),
        _ => (s, SyncAction::Ignore),
    }
}

/// Classifies two histories from the number of commits that each has and the
/// other lacks.
pub fn divergence(local_only: u64, remote_only: u64) -> (r: Divergence)
    ensures
        r == (if local_only == 0 && remote_only == 0 {
            Divergence::Equal
        } else if local_only == 0 {
            Divergence::Behind
        } else if remote_only == 0 {
            Divergence::Ahead
        } else {
            Divergence::Diverged
        }),
{
    if local_only == 0 && remote_only == 0 {
        Divergence::Equal
    } else if local_only == 0 {
        Divergence::Behind
    } else if remote_only == 0 {
        Divergence::Ahead
    } else {
        Divergence::Diverged
    }
}

proof fn lemma_after_fast_forward_stays(s: SyncState, events: Seq<SyncEvent>)
    requires
        s is FastForwarding || s is Done,
    ensures
        run(s, events).0 is FastForwarding || run(s, events).0 is Done,
    decreases events.len(),
{
    if events.len() > 0 {
        lemma_after_fast_forward_stays(step(s, events[0]).0, events.drop_first());
    }
}

proof fn lemma_fast_forward_leads_on(s: SyncState, events: Seq<SyncEvent>)
    ensures
        run(s, events).1.contains(SyncAction::FastForward) ==> (run(s, events).0 is FastForwarding
            || run(s, events).0 is Done),
    decreases events.len(),
{
    if events.len() > 0 {
        let (next, a) = step(s, events[0]);
        let rest = events.drop_first();
        lemma_fast_forward_leads_on(next, rest);
        let acts = run(s, events).1;
        if acts.contains(SyncAction::FastForward) {
            if a == SyncAction::FastForward {
                lemma_after_fast_forward_stays(next, rest);
            } else {
                let k = choose|k: int| 0 <= k < acts.len() && acts[k] == SyncAction::FastForward;
                assert(run(next, rest).1[k - 1] == SyncAction::FastForward);
            }
        }
    }
}

/// A synchronisation that ends on diverged histories never moved the
/// worktree: no fast-forward was asked for on the way, so its content is
/// what it was before.
pub proof fn lemma_conflict_keeps_worktree(events: Seq<SyncEvent>)
    requires
        run(SyncState::Idle, events).0 == SyncState::Failed(SyncFailure::Conflict),
    ensures
        !run(SyncState::Idle, events).1.contains(SyncAction::FastForward),
{
    lemma_fast_forward_leads_on(SyncState::Idle, events);
}

/// Diverged histories end the synchronisation with a conflict.
pub proof fn lemma_diverged_is_conflict()
    ensures
        step(SyncState::Merging, SyncEvent::Compared(Divergence::Diverged)) == (
            SyncState::Failed(SyncFailure::Conflict),
            SyncAction::Fail(SyncFailure::Conflict),
        ),
{
}

} // verus!
