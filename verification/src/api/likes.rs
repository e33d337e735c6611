//! The liked tracks of an account.
//!
//! The caller fetches the details of every liked track, each with
//! [`LIKED_TRACK_ATTEMPTS`] attempts, and hands the results over in the order
//! of the likes.

use vstd::prelude::*;
use crate::api::fetch::{fetch_track, FetchTrack};
use crate::api::types::{Track, TrackInfo};
use crate::error::{ApiError, Reply};

verus! {

/// How many attempts the fetch of each liked track gets.
pub const LIKED_TRACK_ATTEMPTS: usize = 2;

/// The tracks of the fetches that succeeded, in the order of the fetches.
pub open spec fn fetched(results: Seq<Result<Track, ApiError>>) -> Seq<Track> {
    results.filter_map(
        |result: Result<Track, ApiError>|
            match result {
                Ok(track) => Some(track),
                Err(_) => None,
            },
    )
}

/// The tracks whose first album is a music album, in their order.
pub open spec fn music_only(tracks: Seq<Track>) -> Seq<Track> {
    tracks.filter(|track: Track| track.is_music())
}

/// The likes that the reply to the likes request names, in its order. The
/// request is sent once: whatever went wrong ends the call.
pub fn liked_tracks_infos(reply: Reply<Vec<TrackInfo>>) -> (result: Result<Vec<TrackInfo>, ApiError>)
    ensures
        result == reply.outcome(),
{
    reply.into_result()
}

/// Starts one fetch for each liked track, in the order of the likes.
pub fn liked_track_fetches(infos: &Vec<TrackInfo>) -> (fetches: Vec<FetchTrack>)
    ensures
        fetches@.len() == infos@.len(),
        forall|i: int|
            0 <= i < infos@.len() ==> {
                &&& (#[trigger] fetches@[i]).id() == infos@[i].id
                &&& fetches@[i].attempts_left() == LIKED_TRACK_ATTEMPTS
            },
{
    let mut fetches: Vec<FetchTrack> = Vec::new();
    let mut i: usize = 0;
    while i < infos.len()
        invariant
            i <= infos@.len(),
            fetches@.len() == i,
            forall|k: int|
                0 <= k < i ==> {
                    &&& (#[trigger] fetches@[k]).id() == infos@[k].id
                    &&& fetches@[k].attempts_left() == LIKED_TRACK_ATTEMPTS
                },
        decreases infos@.len() - i,
    {
        fetches.push(fetch_track(infos[i].id, Some(LIKED_TRACK_ATTEMPTS)));
        i += 1;
    }
    fetches
}

/// Keeps the tracks that were fetched and drops every fetch that failed.
pub fn liked_tracks(results: Vec<Result<Track, ApiError>>) -> (tracks: Vec<Track>)
    ensures
        tracks@ == fetched(results@),
{
    let ghost all = results@;
    let mut tracks: Vec<Track> = Vec::new();
    for result in iter: results
        invariant
            iter.seq() == all,
            tracks@ == fetched(all.take(iter.index())),
    {
        proof {
            all.lemma_filter_map_take_succ(
                |result: Result<Track, ApiError>|
                    match result {
                        Ok(track) => Some(track),
                        Err(_) => None,
                    },
                iter.index(),
            );
        }
        match result {
            Ok(track) => {
                tracks.push(track);
            },
            Err(_) => {},
        }
    }
    assert(all.take(all.len() as int) =~= all);
    tracks
}

/// Keeps the tracks whose first album is a music album. A track without an
/// album is left out.
pub fn music_tracks(tracks: Vec<Track>) -> (music: Vec<Track>)
    ensures
        music@ == music_only(tracks@),
{
    let ghost all = tracks@;
    let mut music: Vec<Track> = Vec::new();
    for track in iter: tracks
        invariant
            iter.seq() == all,
            music@ == music_only(all.take(iter.index())),
    {
        proof {
            let seen = all.take(iter.index());
            assert(all.take(iter.index() + 1) =~= seen.push(track));
            seen.lemma_filter_push(track, |track: Track| track.is_music());
        }
        if track.has_music_album() {
            music.push(track);
        }
    }
    assert(all.take(all.len() as int) =~= all);
    music
}

/// The liked tracks that were fetched and whose first album is a music album.
pub fn liked_music_tracks(results: Vec<Result<Track, ApiError>>) -> (tracks: Vec<Track>)
    ensures
        tracks@ == music_only(fetched(results@)),
{
    music_tracks(liked_tracks(results))
}

} // verus!
