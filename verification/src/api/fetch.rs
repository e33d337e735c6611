//! Fetching a track's details, with a bounded number of attempts.
//!
//! The caller sends the request and hands each reply to [`FetchTrack::on_reply`],
//! which says whether to send again or what the fetch has come to.

use vstd::prelude::*;
use crate::api::types::{Track, TrackID};
use crate::error::{ApiError, Reply};

verus! {

/// A fetch of one track's details that still has a request to send.
pub struct FetchTrack {
    track_id: TrackID,
    left: usize,
}

/// What a reply means for a fetch.
pub enum FetchStep {
    /// The request failed in transport and attempts are left: send it again.
    Again(FetchTrack),
    /// The fetch is over.
    Done(Result<Track, ApiError>),
}

/// How a run of replies ends for a fetch.
pub struct FetchRun {
    /// What the fetch came to; `None` while it still waits for a reply.
    pub outcome: Option<Result<Track, ApiError>>,
    /// How many requests were sent.
    pub attempts: nat,
}

/// What a reply gives that ends a fetch: the first track of its body. A body
/// without a track is a parse error.
pub open spec fn first_track(reply: Reply<Vec<Track>>) -> Result<Track, ApiError> {
    match reply.outcome() {
        Ok(tracks) => if tracks@.len() > 0 {
            Ok(tracks@[0])
        } else {
            Err(ApiError::Parse)
        },
        Err(error) => Err(error),
    }
}

/// A run of transport failures with these reports.
pub open spec fn failures(reports: Seq<String>) -> Seq<Reply<Vec<Track>>> {
    reports.map_values(|report: String| Reply::<Vec<Track>>::Failed(report))
}

/// Starts the fetch of a track's details with that many attempts; without a
/// number, with one. A fetch cannot start with no attempt at all.
pub fn fetch_track(track_id: TrackID, attempts: Option<usize>) -> (fetch: FetchTrack)
    requires
        attempts != Some(0usize),
    ensures
        fetch.id() == track_id,
        fetch.attempts_left() == match attempts {
            Some(n) => n as nat,
            None => 1,
        },
{
    let left = match attempts {
        Some(n) => n,
        None => 1,
    };
    FetchTrack { track_id, left }
}

impl FetchTrack {
    #[verifier::type_invariant]
    spec fn has_attempts(self) -> bool {
        self.left >= 1
    }

    /// The track that is asked for.
    pub closed spec fn id(self) -> TrackID {
        self.track_id
    }

    /// How many requests may still be sent; at least one.
    pub closed spec fn attempts_left(self) -> nat {
        self.left as nat
    }

    /// The fetch after one more failed request.
    pub closed spec fn retried(self) -> FetchTrack {
        FetchTrack { track_id: self.track_id, left: (self.left - 1) as usize }
    }

    /// What a reply means. A transport failure is answered by another request
    /// while attempts are left, and ends the fetch with that failure when none
    /// is. Every other reply ends the fetch at once.
    pub open spec fn step(self, reply: Reply<Vec<Track>>) -> FetchStep {
        match reply {
            Reply::Failed(report) => if self.attempts_left() > 1 {
                FetchStep::Again(self.retried())
            } else {
                FetchStep::Done(Err(ApiError::Transport(report)))
            },
            other => FetchStep::Done(first_track(other)),
        }
    }

    /// Where a fetch stands after the replies to its requests, in order.
    pub open spec fn run(self, replies: Seq<Reply<Vec<Track>>>) -> FetchRun
        decreases replies.len(),
    {
        if replies.len() == 0 {
            FetchRun { outcome: None, attempts: 0 }
        } else {
            match self.step(replies[0]) {
                FetchStep::Done(result) => FetchRun { outcome: Some(result), attempts: 1 },
                FetchStep::Again(next) => {
                    let rest = next.run(replies.drop_first());
                    FetchRun { outcome: rest.outcome, attempts: rest.attempts + 1 }
                },
            }
        }
    }

    /// The track that is asked for.
    pub fn track_id(&self) -> (id: TrackID)
        ensures
            id == self.id(),
    {
        self.track_id
    }

    /// Judges the reply to the request that was sent last.
    pub fn on_reply(self, reply: Reply<Vec<Track>>) -> (step: FetchStep)
        ensures
            step == self.step(reply),
    {
        proof {
            use_type_invariant(&self);
        }
        match reply {
            Reply::Failed(report) => {
                if self.left > 1 {
                    FetchStep::Again(FetchTrack { track_id: self.track_id, left: self.left - 1 })
                } else {
                    FetchStep::Done(Err(ApiError::Transport(report)))
                }
            },
            Reply::Rejected => FetchStep::Done(Err(ApiError::Auth)),
            Reply::Malformed => FetchStep::Done(Err(ApiError::Parse)),
            Reply::Body(tracks) => {
                let mut tracks = tracks;
                if tracks.len() > 0 {
                    FetchStep::Done(Ok(tracks.swap_remove(0)))
                } else {
                    FetchStep::Done(Err(ApiError::Parse))
                }
            },
        }
    }

    /// After a failure that leaves attempts, the fetch asks for the same track
    /// and has one attempt less.
    pub proof fn lemma_retried(self)
        requires
            self.attempts_left() > 1,
        ensures
            self.retried().id() == self.id(),
            self.retried().attempts_left() == self.attempts_left() - 1,
    {
    }

    /// A fetch that meets fewer transport failures than it has attempts, and
    /// then a reply with a track in it, succeeds with that track, and has sent
    /// one request for each failure and one more.
    pub proof fn lemma_retry_until_success(self, reports: Seq<String>, found: Vec<Track>)
        requires
            reports.len() < self.attempts_left(),
            found@.len() > 0,
        ensures
            self.run(failures(reports).push(Reply::Body(found))) == (FetchRun {
                outcome: Some(Ok(found@[0])),
                attempts: reports.len() + 1,
            }),
        decreases reports.len(),
    {
        let replies = failures(reports).push(Reply::Body(found));
        if reports.len() == 0 {
            assert(replies[0] == Reply::Body(found));
        } else {
            assert(replies[0] == Reply::<Vec<Track>>::Failed(reports[0]));
            assert(replies.drop_first() =~= failures(reports.drop_first()).push(
                Reply::Body(found),
            ));
            self.retried().lemma_retry_until_success(reports.drop_first(), found);
        }
    }

    /// A fetch that meets as many transport failures as it has attempts fails
    /// with the last failure, and has sent one request for each attempt.
    pub proof fn lemma_retry_exhausted(self, reports: Seq<String>)
        requires
            self.attempts_left() >= 1,
            reports.len() == self.attempts_left(),
        ensures
            self.run(failures(reports)) == (FetchRun {
                outcome: Some(Err(ApiError::Transport(reports.last()))),
                attempts: self.attempts_left(),
            }),
        decreases reports.len(),
    {
        let replies = failures(reports);
        assert(replies[0] == Reply::<Vec<Track>>::Failed(reports[0]));
        if reports.len() > 1 {
            assert(replies.drop_first() =~= failures(reports.drop_first()));
            self.retried().lemma_retry_exhausted(reports.drop_first());
            assert(reports.drop_first().last() == reports.last());
        }
    }
}

} // verus!
