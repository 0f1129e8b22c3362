use dotm::sync::{divergence, sync_step, Divergence, SyncAction, SyncEvent, SyncFailure, SyncState};

fn drive(events: &[SyncEvent]) -> (SyncState, Vec<SyncAction>) {
    let mut s = SyncState::Idle;
    let mut actions = Vec::new();
    for e in events {
        let (next, a) = sync_step(s, *e);
        s = next;
        actions.push(a);
    }
    (s, actions)
}

#[test]
fn no_remote() {
    let (s, a) = drive(&[SyncEvent::Start { has_remote: false }]);
    assert_eq!(s, SyncState::Failed(SyncFailure::NoRemoteConfigured));
    assert_eq!(a, vec![SyncAction::Fail(SyncFailure::NoRemoteConfigured)]);
}

#[test]
fn fetch_failure_is_network() {
    let (s, _) = drive(&[SyncEvent::Start { has_remote: true }, SyncEvent::FetchFailed]);
    assert_eq!(s, SyncState::Failed(SyncFailure::Network));
}

#[test]
fn diverged_is_conflict_without_fast_forward() {
    let (s, a) = drive(&[
        SyncEvent::Start { has_remote: true },
        SyncEvent::Fetched { dirty: true },
        SyncEvent::Committed,
        SyncEvent::Compared(Divergence::Diverged),
        SyncEvent::FastForwarded,
    ]);
    assert_eq!(s, SyncState::Failed(SyncFailure::Conflict));
    assert!(!a.contains(&SyncAction::FastForward));
    assert_eq!(a[1], SyncAction::Commit);
}

#[test]
fn behind_fast_forwards() {
    let (s, a) = drive(&[
        SyncEvent::Start { has_remote: true },
        SyncEvent::Fetched { dirty: false },
        SyncEvent::Compared(Divergence::Behind),
        SyncEvent::FastForwarded,
    ]);
    assert_eq!(s, SyncState::Done);
    assert_eq!(a, vec![SyncAction::Fetch, SyncAction::Compare, SyncAction::FastForward, SyncAction::Finish]);
}

#[test]
fn ahead_pushes() {
    let (s, a) = drive(&[
        SyncEvent::Start { has_remote: true },
        SyncEvent::Fetched { dirty: true },
        SyncEvent::Committed,
        SyncEvent::Compared(Divergence::Ahead),
        SyncEvent::PushFailed,
    ]);
    assert_eq!(s, SyncState::Failed(SyncFailure::Network));
    assert_eq!(a[3], SyncAction::Push);
}

#[test]
fn divergence_from_counts() {
    assert_eq!(divergence(0, 0), Divergence::Equal);
    assert_eq!(divergence(0, 3), Divergence::Behind);
    assert_eq!(divergence(2, 0), Divergence::Ahead);
    assert_eq!(divergence(1, 1), Divergence::Diverged);
}
