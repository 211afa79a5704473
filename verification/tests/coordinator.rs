use mbzlists_resolvers::matching::{Candidate, Policy};
use mbzlists_resolvers::mbzlists::Track;
use mbzlists_resolvers::sync::{Phase, RemotePlaylist, ResolutionOutcome, SearchReply, SyncRun};

fn track(title: &str, creator: &str) -> Track {
    Track {
        title: String::from(title),
        creator: String::from(creator),
    }
}

fn candidate(id: &str, title: &str, artist: &str) -> Candidate {
    Candidate {
        external_id: String::from(id),
        title: String::from(title),
        primary_artist: String::from(artist),
    }
}

#[test]
fn empty_search_leaves_track_unresolved() {
    // Playlist {title:"Test", tracks:[{title:"A", creator:"X"}]} with a
    // search returning no candidates.
    let mut run = SyncRun::start(
        Policy::Strict,
        String::from("Test"),
        vec![track("A", "X")],
    );
    assert!(run.next_track().is_some());
    let outcome = run.record_reply(SearchReply::NotFound);
    assert!(matches!(outcome, ResolutionOutcome::Unresolved { .. }));
    assert_eq!(run.result.attempted, 1);
    assert_eq!(run.result.resolved.len(), 0);
    assert_eq!(run.result.unresolved_count, 1);
    assert!(run.next_track().is_none());
    let create = run.finish_resolving();
    assert!(!create);
    assert!(matches!(run.phase, Phase::DoneEmpty));
    assert!(run.remote.is_none());
}

#[test]
fn exact_match_resolves_and_creates_once() {
    // The same playlist with a search returning an exact match: one
    // resolved candidate, and creation is requested exactly once.
    let mut run = SyncRun::start(
        Policy::Strict,
        String::from("Test"),
        vec![track("A", "X")],
    );
    let next = run.next_track().expect("one track to resolve");
    assert_eq!(next.title, "A");
    assert_eq!(next.creator, "X");
    let outcome = run.record_reply(SearchReply::Found(candidate("id1", "A", "X")));
    assert!(matches!(outcome, ResolutionOutcome::Resolved { .. }));
    assert_eq!(run.result.attempted, 1);
    assert_eq!(run.result.resolved.len(), 1);
    assert_eq!(run.result.resolved[0].external_id, "id1");
    assert_eq!(run.result.unresolved_count, 0);
    let create = run.finish_resolving();
    assert!(create);
    assert!(matches!(run.phase, Phase::Creating));
    run.finish_created(RemotePlaylist {
        external_id: String::from("pl1"),
        url: String::from("https://example.invalid/pl1"),
    });
    assert!(matches!(run.phase, Phase::Done));
    assert!(run.next_track().is_none());
}

#[test]
fn resolved_plus_unresolved_counts_all_tracks() {
    let tracks = vec![track("A", "X"), track("B", "Y"), track("C", "Z")];
    let mut run = SyncRun::start(Policy::Strict, String::from("P"), tracks);
    run.record_reply(SearchReply::Found(candidate("a", "A", "X")));
    run.record_reply(SearchReply::NotFound);
    run.record_reply(SearchReply::Found(candidate("c", "C", "Z")));
    assert_eq!(run.result.attempted, 3);
    assert_eq!(run.result.resolved.len() + run.result.unresolved_count, 3);
}

#[test]
fn rejected_candidate_counts_as_unresolved() {
    let mut run = SyncRun::start(Policy::Strict, String::from("P"), vec![track("A", "X")]);
    let outcome = run.record_reply(SearchReply::Found(candidate("a", "A", "Somebody Else")));
    assert!(matches!(outcome, ResolutionOutcome::Unresolved { .. }));
    assert_eq!(run.result.resolved.len(), 0);
    assert_eq!(run.result.unresolved_count, 1);
}

#[test]
fn transient_error_does_not_abort_run() {
    // A transient error on one track among three leaves the other two
    // resolved.
    let tracks = vec![track("A", "X"), track("B", "Y"), track("C", "Z")];
    let mut run = SyncRun::start(Policy::Strict, String::from("P"), tracks);
    run.record_reply(SearchReply::Found(candidate("a", "A", "X")));
    let outcome = run.record_reply(SearchReply::TransientError);
    assert!(matches!(outcome, ResolutionOutcome::Unresolved { .. }));
    assert!(run.next_track().is_some());
    run.record_reply(SearchReply::Found(candidate("c", "C", "Z")));
    assert_eq!(run.result.attempted, 3);
    assert_eq!(run.result.resolved.len(), 2);
    assert_eq!(run.result.resolved[0].external_id, "a");
    assert_eq!(run.result.resolved[1].external_id, "c");
    assert_eq!(run.result.unresolved_count, 1);
}

#[test]
fn no_creation_when_nothing_resolved() {
    let tracks = vec![track("A", "X"), track("B", "Y")];
    let mut run = SyncRun::start(Policy::Strict, String::from("P"), tracks);
    run.record_reply(SearchReply::NotFound);
    run.record_reply(SearchReply::TransientError);
    let create = run.finish_resolving();
    assert!(!create);
    assert!(matches!(run.phase, Phase::DoneEmpty));
    assert!(run.remote.is_none());
}

#[test]
fn empty_playlist_terminates_without_creation() {
    let mut run = SyncRun::start(Policy::Strict, String::from("P"), vec![]);
    assert!(run.next_track().is_none());
    let create = run.finish_resolving();
    assert!(!create);
    assert!(matches!(run.phase, Phase::DoneEmpty));
}

#[test]
fn creation_failure_keeps_resolution_work() {
    let mut run = SyncRun::start(Policy::Strict, String::from("P"), vec![track("A", "X")]);
    run.record_reply(SearchReply::Found(candidate("a", "A", "X")));
    let create = run.finish_resolving();
    assert!(create);
    run.finish_failed();
    assert!(matches!(run.phase, Phase::Done));
    assert!(run.remote.is_none());
    assert_eq!(run.result.resolved.len(), 1);
    assert_eq!(run.result.attempted, 1);
}

#[test]
fn resolved_candidates_keep_source_order() {
    let tracks = vec![track("B", "Y"), track("A", "X")];
    let mut run = SyncRun::start(Policy::Strict, String::from("P"), tracks);
    run.record_reply(SearchReply::Found(candidate("first", "B", "Y")));
    run.record_reply(SearchReply::Found(candidate("second", "A", "X")));
    assert_eq!(run.result.resolved[0].external_id, "first");
    assert_eq!(run.result.resolved[1].external_id, "second");
}
