//! The playlists of an account.

use vstd::prelude::*;
use crate::api::types::{PlaylistInfo, Track};
use crate::error::{ApiError, Reply};

verus! {

/// The playlists that the reply to the list request names. The request is
/// sent once: whatever went wrong ends the call.
pub fn playlists(reply: Reply<Vec<PlaylistInfo>>) -> (result: Result<Vec<PlaylistInfo>, ApiError>)
    ensures
        result == reply.outcome(),
{
    reply.into_result()
}

/// The tracks of a playlist, in the playlist's order, as the reply to the
/// playlist request gives them. The request is sent once: whatever went wrong
/// ends the call.
pub fn tracks_from_playlist(reply: Reply<Vec<Track>>) -> (result: Result<Vec<Track>, ApiError>)
    ensures
        result == reply.outcome(),
{
    reply.into_result()
}

} // verus!
