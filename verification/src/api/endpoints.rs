//! Where the service is asked, and with which credential.

use vstd::prelude::*;
use vstd::string::*;
use crate::api::types::TrackID;
use crate::text::{decimal_text, u64_to_decimal};

verus! {

/// The address that every request of the service starts with.
pub const API_ROOT: &'static str = "https://api.music.yandex.net";

/// The value of the authorization header for a token.
pub open spec fn authorization_text(token: Seq<char>) -> Seq<char> {
    "OAuth "@ + token
}

/// The address of the account's status.
pub open spec fn account_status_text() -> Seq<char> {
    API_ROOT@ + "/account/status/"@
}

/// The address of the tracks that a user likes.
pub open spec fn liked_tracks_text(uid: nat) -> Seq<char> {
    API_ROOT@ + "/users/"@ + decimal_text(uid) + "/likes/tracks"@
}

/// The address that track details are asked from.
pub open spec fn tracks_text() -> Seq<char> {
    API_ROOT@ + "/tracks"@
}

/// The address of the ways to download a track.
pub open spec fn download_info_text(id: nat) -> Seq<char> {
    API_ROOT@ + "/tracks/"@ + decimal_text(id) + "/download-info"@
}

/// The address of the list of a user's playlists.
pub open spec fn playlists_text(uid: nat) -> Seq<char> {
    API_ROOT@ + "/users/"@ + decimal_text(uid) + "/playlists/list"@
}

/// The address of one playlist of a user.
pub open spec fn playlist_text(uid: nat, kind: nat) -> Seq<char> {
    API_ROOT@ + "/users/"@ + decimal_text(uid) + "/playlists/"@ + decimal_text(kind)
}

/// The value of the authorization header that carries a token.
pub fn authorization_header(token: &str) -> (value: String)
    ensures
        value@ == authorization_text(token@),
{
    let mut value = String::from_str("OAuth ");
    value.append(token);
    value
}

/// The address of the account's status.
pub fn account_status_url() -> (url: String)
    ensures
        url@ == account_status_text(),
{
    let mut url = String::from_str(API_ROOT);
    url.append("/account/status/");
    url
}

/// The address of the tracks that a user likes.
pub fn liked_tracks_url(uid: u64) -> (url: String)
    ensures
        url@ == liked_tracks_text(uid as nat),
{
    let mut url = String::from_str(API_ROOT);
    url.append("/users/");
    url.append(u64_to_decimal(uid).as_str());
    url.append("/likes/tracks");
    url
}

/// The address that track details are asked from. The tracks are named in
/// the query, see [`track_query`].
pub fn tracks_url() -> (url: String)
    ensures
        url@ == tracks_text(),
{
    let mut url = String::from_str(API_ROOT);
    url.append("/tracks");
    url
}

/// The query parameter that asks for one track's details: its name and value.
pub fn track_query(id: TrackID) -> (query: (String, String))
    ensures
        query.0@ == "trackIds"@,
        query.1@ == decimal_text(id as nat),
{
    (String::from_str("trackIds"), u64_to_decimal(id))
}

/// The address of the ways to download a track.
pub fn download_info_url(id: TrackID) -> (url: String)
    ensures
        url@ == download_info_text(id as nat),
{
    let mut url = String::from_str(API_ROOT);
    url.append("/tracks/");
    url.append(u64_to_decimal(id).as_str());
    url.append("/download-info");
    url
}

/// The address of the list of a user's playlists.
pub fn playlists_url(uid: u64) -> (url: String)
    ensures
        url@ == playlists_text(uid as nat),
{
    let mut url = String::from_str(API_ROOT);
    url.append("/users/");
    url.append(u64_to_decimal(uid).as_str());
    url.append("/playlists/list");
    url
}

/// The address of one playlist of a user.
pub fn playlist_url(uid: usize, kind: usize) -> (url: String)
    ensures
        url@ == playlist_text(uid as nat, kind as nat),
{
    let mut url = String::from_str(API_ROOT);
    url.append("/users/");
    url.append(u64_to_decimal(uid as u64).as_str());
    url.append("/playlists/");
    url.append(u64_to_decimal(kind as u64).as_str());
    url
}

} // verus!
