//! The synchronization coordinator: one state machine per run. It walks the
//! playlist's tracks in source order, records one resolution outcome per
//! track, and decides whether the run proceeds to remote playlist creation.
//!
//! The search calls themselves are network work and are performed by the
//! caller; the coordinator is handed each track's search reply as a plain
//! value, so every decision it makes is verified for every possible reply.

use vstd::prelude::*;
use crate::matching::{accepts, Candidate, Policy};
use crate::mbzlists::Track;

verus! {

/// What one search call against the remote catalog produced: the first item
/// of the result list, an empty-but-valid result, or a transport or schema
/// failure.
pub enum SearchReply {
    Found(Candidate),
    NotFound,
    TransientError,
}

/// Why a track was left unresolved: no acceptable match, or a failed search
/// call.
pub enum Reason {
    NotFound,
    TransientError,
}

/// The outcome of resolving one track: either an accepted pairing with a
/// candidate, or the reason the track stays unresolved. Exactly one is
/// produced per input track, and it is never mutated after creation.
pub enum ResolutionOutcome {
    Resolved { track: Track, candidate: Candidate },
    Unresolved { track: Track, reason: Reason },
}

/// The aggregate of a resolving pass: how many tracks were attempted, the
/// accepted candidates in source order, and how many tracks stayed
/// unresolved.
pub struct SyncResult {
    pub attempted: usize,
    pub resolved: Vec<Candidate>,
    pub unresolved_count: usize,
}

/// Why a playlist-creation call failed: a non-2xx transport status, a
/// response that does not follow the expected schema, or a well-formed
/// response that reports a refusal. Fatal to the run, though the resolution
/// work already performed is kept.
#[derive(Debug)]
pub enum PlatformError {
    Http,
    BadSchema,
    Refused,
}

/// The remote playlist created at the end of a successful run.
pub struct RemotePlaylist {
    pub external_id: String,
    pub url: String,
}

/// The coordinator's states: resolving tracks, creating the remote playlist,
/// done with creation attempted, or done without creation because nothing
/// resolved.
pub enum Phase {
    Resolving,
    Creating,
    Done,
    DoneEmpty,
}

/// Whether the reply forwards exactly one candidate with the given
/// identifier, title and primary artist.
pub open spec fn found_with(
    r: SearchReply,
    id: Seq<char>,
    title: Seq<char>,
    artist: Seq<char>,
) -> bool {
    r matches SearchReply::Found(c) && c.external_id@ == id && c.title@ == title
        && c.primary_artist@ == artist
}

/// Whether the reply carries a candidate that the policy accepts for the
/// track.
pub open spec fn reply_accepted(policy: Policy, track: Track, reply: SearchReply) -> bool {
    reply matches SearchReply::Found(c) && accepts(policy, track, c)
}

/// The accepted candidates, in source order, of a resolving pass over
/// `tracks` whose search calls returned `replies`.
pub open spec fn resolved_of(policy: Policy, tracks: Seq<Track>, replies: Seq<SearchReply>) -> Seq<
    Candidate,
>
    decreases tracks.len(),
{
    if tracks.len() == 0 || replies.len() == 0 {
        Seq::empty()
    } else {
        let prefix = resolved_of(policy, tracks.drop_last(), replies.drop_last());
        if reply_accepted(policy, tracks.last(), replies.last()) {
            prefix.push(replies.last()->Found_0)
        } else {
            prefix
        }
    }
}

/// How many tracks of the pass stay unresolved.
pub open spec fn unresolved_of(
    policy: Policy,
    tracks: Seq<Track>,
    replies: Seq<SearchReply>,
) -> nat
    decreases tracks.len(),
{
    if tracks.len() == 0 || replies.len() == 0 {
        0
    } else {
        let prefix = unresolved_of(policy, tracks.drop_last(), replies.drop_last());
        if reply_accepted(policy, tracks.last(), replies.last()) {
            prefix
        } else {
            prefix + 1
        }
    }
}

/// The outcome owed for one track given its search reply: resolved when the
/// reply holds a candidate that the policy accepts, unresolved with reason
/// `NotFound` for an empty result or a rejected candidate, and unresolved
/// with reason `TransientError` for a failed call.
pub open spec fn outcome_spec(policy: Policy, track: Track, reply: SearchReply) -> ResolutionOutcome {
    match reply {
        SearchReply::Found(c) => if accepts(policy, track, c) {
            ResolutionOutcome::Resolved { track, candidate: c }
        } else {
            ResolutionOutcome::Unresolved { track, reason: Reason::NotFound }
        },
        SearchReply::NotFound => ResolutionOutcome::Unresolved { track, reason: Reason::NotFound },
        SearchReply::TransientError => ResolutionOutcome::Unresolved {
            track,
            reason: Reason::TransientError,
        },
    }
}

/// One synchronization run: the input playlist with the chosen adapter's
/// policy, the phase, and the incrementally built result.
pub struct SyncRun {
    pub policy: Policy,
    pub name: String,
    pub tracks: Vec<Track>,
    pub phase: Phase,
    pub result: SyncResult,
    pub remote: Option<RemotePlaylist>,
    pub replies: Ghost<Seq<SearchReply>>,
}

impl SyncRun {
    /// Well-formedness of a run: one reply recorded per attempted track, the
    /// resolved list and the unresolved count partition the attempts, the
    /// resolved list is exactly what the replies so far warrant, creation is
    /// only ever in progress with a non-empty resolved list, and a remote
    /// playlist exists only once the run is done.
    pub open spec fn wf(self) -> bool {
        &&& self.replies@.len() == self.result.attempted as int
        &&& self.result.attempted <= self.tracks@.len()
        &&& self.result.resolved@ == resolved_of(
            self.policy,
            self.tracks@.take(self.result.attempted as int),
            self.replies@,
        )
        &&& self.result.resolved@.len() + self.result.unresolved_count as int
            == self.result.attempted as int
        &&& (!(self.phase is Resolving) ==> self.result.attempted == self.tracks@.len())
        &&& (self.phase is Creating ==> self.result.resolved@.len() > 0)
        &&& (self.phase is DoneEmpty ==> self.result.resolved@.len() == 0)
        &&& (!(self.phase is Done) ==> self.remote is None)
    }

    /// Begin a run over the given tracks with the adapter's policy. The run
    /// starts resolving with nothing attempted yet.
    pub fn start(policy: Policy, name: String, tracks: Vec<Track>) -> (r: SyncRun)
        ensures
            r.wf(),
            r.phase is Resolving,
            r.policy == policy,
            r.name == name,
            r.tracks == tracks,
            r.result.attempted == 0,
            r.result.resolved@ =~= Seq::<Candidate>::empty(),
            r.result.unresolved_count == 0,
            r.remote is None,
            r.replies@ =~= Seq::<SearchReply>::empty(),
    {
        let r = SyncRun {
            policy,
            name,
            tracks,
            phase: Phase::Resolving,
            result: SyncResult { attempted: 0, resolved: Vec::new(), unresolved_count: 0 },
            remote: None,
            replies: Ghost(Seq::empty()),
        };
        proof {
            assert(r.tracks@.take(0) =~= Seq::<Track>::empty());
        }
        r
    }

    /// The track whose search call is owed next, while the run is resolving
    /// and tracks remain; None once every track has been attempted or the
    /// run has moved on.
    pub fn next_track(&self) -> (r: Option<&Track>)
        ensures
            match r {
                Some(t) => self.phase is Resolving && self.result.attempted < self.tracks@.len()
                    && *t == self.tracks@[self.result.attempted as int],
                None => !(self.phase is Resolving) || self.result.attempted >= self.tracks@.len(),
            },
    {
        match self.phase {
            Phase::Resolving => {
                if self.result.attempted < self.tracks.len() {
                    Some(&self.tracks[self.result.attempted])
                } else {
                    None
                }
            },
            _ => None,
        }
    }

    /// Record the search reply for the current track. The candidate is kept
    /// iff the policy accepts it; otherwise the unresolved count grows. A
    /// transient error is recorded like any other miss and the run goes on
    /// with the remaining tracks. Returns the track's resolution outcome.
    pub fn record_reply(&mut self, reply: SearchReply) -> (o: ResolutionOutcome)
        requires
            old(self).wf(),
            old(self).phase is Resolving,
            old(self).result.attempted < old(self).tracks@.len(),
        ensures
            final(self).wf(),
            final(self).phase is Resolving,
            final(self).policy == old(self).policy,
            final(self).name == old(self).name,
            final(self).tracks == old(self).tracks,
            final(self).remote == old(self).remote,
            final(self).replies@ == old(self).replies@.push(reply),
            final(self).result.attempted == old(self).result.attempted + 1,
            o == outcome_spec(
                old(self).policy,
                old(self).tracks@[old(self).result.attempted as int],
                reply,
            ),
            reply_accepted(
                old(self).policy,
                old(self).tracks@[old(self).result.attempted as int],
                reply,
            ) ==> {
                &&& final(self).result.resolved@ == old(self).result.resolved@.push(
                    reply->Found_0,
                )
                &&& final(self).result.unresolved_count == old(self).result.unresolved_count
            },
            !reply_accepted(
                old(self).policy,
                old(self).tracks@[old(self).result.attempted as int],
                reply,
            ) ==> {
                &&& final(self).result.resolved@ == old(self).result.resolved@
                &&& final(self).result.unresolved_count == old(self).result.unresolved_count + 1
            },
    {
        let ghost old_replies = self.replies@;
        let ghost idx = self.result.attempted as int;
        let ghost r0 = reply;
        let n = self.tracks.len();
        assert(self.result.attempted < n);
        assert(self.result.unresolved_count <= self.result.attempted);
        let i = self.result.attempted;
        let track_copy = self.tracks[i].duplicate();
        let o: ResolutionOutcome;
        match reply {
            SearchReply::Found(c) => {
                if self.policy.verify(&self.tracks[i], &c) {
                    let candidate_copy = c.duplicate();
                    self.result.resolved.push(c);
                    o = ResolutionOutcome::Resolved { track: track_copy, candidate: candidate_copy };
                } else {
                    self.result.unresolved_count = self.result.unresolved_count + 1;
                    o = ResolutionOutcome::Unresolved { track: track_copy, reason: Reason::NotFound };
                }
            },
            SearchReply::NotFound => {
                self.result.unresolved_count = self.result.unresolved_count + 1;
                o = ResolutionOutcome::Unresolved { track: track_copy, reason: Reason::NotFound };
            },
            SearchReply::TransientError => {
                self.result.unresolved_count = self.result.unresolved_count + 1;
                o = ResolutionOutcome::Unresolved {
                    track: track_copy,
                    reason: Reason::TransientError,
                };
            },
        }
        self.result.attempted = self.result.attempted + 1;
        self.replies = Ghost(old_replies.push(r0));
        proof {
            let ts = self.tracks@;
            assert(ts.take(idx + 1).drop_last() =~= ts.take(idx));
            assert(ts.take(idx + 1).last() == ts[idx]);
            assert(old_replies.push(r0).drop_last() =~= old_replies);
        }
        o
    }

    /// End the resolving pass. The run proceeds to creation iff at least one
    /// track resolved; otherwise it terminates without any remote playlist
    /// being created, as a normal outcome. Returns whether creation is owed.
    pub fn finish_resolving(&mut self) -> (create: bool)
        requires
            old(self).wf(),
            old(self).phase is Resolving,
            old(self).result.attempted == old(self).tracks@.len(),
        ensures
            final(self).wf(),
            final(self).result.resolved@.len() + final(self).result.unresolved_count
                == final(self).tracks@.len(),
            create == (old(self).result.resolved@.len() > 0),
            create ==> final(self).phase is Creating,
            !create ==> final(self).phase is DoneEmpty,
            final(self).result == old(self).result,
            final(self).policy == old(self).policy,
            final(self).name == old(self).name,
            final(self).tracks == old(self).tracks,
            final(self).remote == old(self).remote,
            final(self).replies@ == old(self).replies@,
    {
        if self.result.resolved.len() > 0 {
            self.phase = Phase::Creating;
            true
        } else {
            self.phase = Phase::DoneEmpty;
            false
        }
    }

    /// Record that the remote playlist was created. The run is done and
    /// keeps the playlist's identity.
    pub fn finish_created(&mut self, remote: RemotePlaylist)
        requires
            old(self).wf(),
            old(self).phase is Creating,
        ensures
            final(self).wf(),
            final(self).phase is Done,
            final(self).remote == Some(remote),
            final(self).result == old(self).result,
            final(self).policy == old(self).policy,
            final(self).name == old(self).name,
            final(self).tracks == old(self).tracks,
            final(self).replies@ == old(self).replies@,
    {
        self.remote = Some(remote);
        self.phase = Phase::Done;
    }

    /// Record that the creation call failed. The run is done without a
    /// remote playlist, but the resolution work already performed is kept
    /// for reporting.
    pub fn finish_failed(&mut self)
        requires
            old(self).wf(),
            old(self).phase is Creating,
        ensures
            final(self).wf(),
            final(self).phase is Done,
            final(self).remote is None,
            final(self).result == old(self).result,
            final(self).policy == old(self).policy,
            final(self).name == old(self).name,
            final(self).tracks == old(self).tracks,
            final(self).replies@ == old(self).replies@,
    {
        self.phase = Phase::Done;
    }
}

/// After a resolving pass over a whole playlist, the resolved candidates and
/// the unresolved count partition the tracks: their total is exactly the
/// number of tracks.
pub proof fn lemma_resolution_partition(policy: Policy, tracks: Seq<Track>, replies: Seq<SearchReply>)
    requires
        tracks.len() == replies.len(),
    ensures
        resolved_of(policy, tracks, replies).len() + unresolved_of(policy, tracks, replies)
            == tracks.len(),
    decreases tracks.len(),
{
    if tracks.len() > 0 {
        lemma_resolution_partition(policy, tracks.drop_last(), replies.drop_last());
    }
}

/// A transient error on one track does not prevent the remaining tracks from
/// being resolved: the pass resolves exactly what a pass over the other
/// tracks alone would have resolved.
pub proof fn lemma_transient_isolated(
    policy: Policy,
    tracks: Seq<Track>,
    replies: Seq<SearchReply>,
    j: int,
)
    requires
        tracks.len() == replies.len(),
        0 <= j < tracks.len(),
        replies[j] is TransientError,
    ensures
        resolved_of(policy, tracks, replies) == resolved_of(
            policy,
            tracks.remove(j),
            replies.remove(j),
        ),
    decreases tracks.len(),
{
    if j == tracks.len() - 1 {
        assert(tracks.remove(j) =~= tracks.drop_last());
        assert(replies.remove(j) =~= replies.drop_last());
    } else {
        lemma_transient_isolated(policy, tracks.drop_last(), replies.drop_last(), j);
        assert(tracks.remove(j).drop_last() =~= tracks.drop_last().remove(j));
        assert(replies.remove(j).drop_last() =~= replies.drop_last().remove(j));
        assert(tracks.remove(j).last() == tracks.last());
        assert(replies.remove(j).last() == replies.last());
    }
}

} // verus!
