//! The records that the service's replies are made of.

use vstd::prelude::*;
use vstd::string::*;

verus! {

/// Identifies a track; stable across sessions.
pub type TrackID = u64;

/// The account that a credential belongs to.
#[derive(Debug)]
pub struct AccountStatus {
    pub uid: u64,
    pub display_name: String,
    pub login: String,
}

/// A reference to a liked track.
#[derive(Debug, Clone, Copy)]
pub struct TrackInfo {
    pub id: TrackID,
    pub album_id: u64,
}

/// A playable track.
#[derive(Debug)]
pub struct Track {
    pub id: TrackID,
    pub title: String,
    pub major: Option<Major>,
    pub albums: Vec<AlbumInfo>,
    pub artists: Vec<ArtistInfo>,
    pub duration: Option<u64>,
}

/// What kind of content an album holds.
#[derive(Debug, Clone, Copy, PartialEq, Eq, Structural)]
pub enum AlbumType {
    Music,
    Podcast,
}

/// An album that a track appears on.
#[derive(Debug)]
pub struct AlbumInfo {
    pub id: u64,
    pub title: String,
    pub meta_type: AlbumType,
    pub track_count: u32,
    pub likes_count: Option<u32>,
}

/// An artist of a track.
#[derive(Debug)]
pub struct ArtistInfo {
    pub id: u64,
    pub name: String,
}

/// The artists of a track, for display.
pub struct Artists<'a>(pub &'a Vec<ArtistInfo>);

/// One way to download a track.
#[derive(Debug)]
pub struct DownloadInfo {
    pub codec: Codec,
    pub url: String,
    pub bitrate: u32,
}

#[verifier::external_type_specification]
#[verifier::external_body]
pub struct ExInstant(std::time::Instant);

/// The audio of a track, as it was fetched.
#[derive(Debug)]
pub struct TrackData {
    pub id: TrackID,
    /// When the audio arrived.
    pub loaded: std::time::Instant,
    /// The bytes, ready for decoding.
    pub data: Vec<u8>,
}

/// How the audio of a download is encoded.
#[derive(Debug, Clone, Copy, PartialEq, Eq, Structural)]
pub enum Codec {
    MP3,
    AAC,
}

/// The label that published a track.
#[derive(Debug)]
pub struct Major {
    pub id: u64,
    pub name: String,
}

/// A playlist of an account.
#[derive(Debug)]
pub struct PlaylistInfo {
    pub title: String,
    pub track_count: usize,
    pub kind: usize,
    pub uid: usize,
}

/// The names of some artists, separated by a comma and a space.
pub open spec fn joined_names(artists: Seq<ArtistInfo>) -> Seq<char>
    decreases artists.len(),
{
    if artists.len() == 0 {
        Seq::empty()
    } else if artists.len() == 1 {
        artists[0].name@
    } else {
        joined_names(artists.drop_last()) + ", "@ + artists.last().name@
    }
}

/// The names of some artists in round brackets.
pub open spec fn artists_text(artists: Seq<ArtistInfo>) -> Seq<char> {
    "("@ + joined_names(artists) + ")"@
}

/// A track's title, a space, and its artists in round brackets.
pub open spec fn track_text(track: Track) -> Seq<char> {
    track.title@ + " "@ + artists_text(track.artists@)
}

impl ArtistInfo {
    /// The artist's name.
    pub fn to_string(&self) -> (text: String)
        ensures
            text@ == self.name@,
    {
        self.name.clone()
    }
}

impl<'a> std::ops::Deref for Artists<'a> {
    type Target = Vec<ArtistInfo>;

    fn deref(&self) -> (artists: &Vec<ArtistInfo>)
        ensures
            artists == self.0,
    {
        self.0
    }
}

impl<'a> Artists<'a> {
    /// The artists' names, separated by commas, in round brackets. There must
    /// be an artist.
    pub fn to_string(&self) -> (text: String)
        requires
            self.0@.len() > 0,
        ensures
            text@ == artists_text(self.0@),
    {
        let artists = self.0;
        let mut text = String::from_str("(");
        text.append(artists[0].name.as_str());
        assert(artists@.take(1) =~= seq![artists@[0]]);
        let mut i: usize = 1;
        while i < artists.len()
            invariant
                1 <= i <= artists.len(),
                text@ == "("@ + joined_names(artists@.take(i as int)),
            decreases artists.len() - i,
        {
            text.append(", ");
            text.append(artists[i].name.as_str());
            proof {
                let next = artists@.take(i + 1);
                assert(next.drop_last() =~= artists@.take(i as int));
                assert(next.last() == artists@[i as int]);
                assert(text@ =~= "("@ + joined_names(next));
            }
            i += 1;
        }
        assert(artists@.take(i as int) =~= artists@);
        text.append(")");
        text
    }
}

impl Track {
    /// The track as a listing shows it. The track must have an artist.
    pub fn to_string(&self) -> (text: String)
        requires
            self.artists@.len() > 0,
        ensures
            text@ == track_text(*self),
    {
        let mut text = self.title.clone();
        text.append(" ");
        let artists = Artists(&self.artists).to_string();
        text.append(artists.as_str());
        text
    }

    /// Whether the track's first album is a music album. A track without an
    /// album is no music.
    pub open spec fn is_music(self) -> bool {
        self.albums@.len() > 0 && self.albums@[0].meta_type == AlbumType::Music
    }

    /// Tells whether the track's first album is a music album.
    pub fn has_music_album(&self) -> (music: bool)
        ensures
            music == self.is_music(),
    {
        if self.albums.len() > 0 {
            match self.albums[0].meta_type {
                AlbumType::Music => true,
                AlbumType::Podcast => false,
            }
        } else {
            false
        }
    }
}

} // verus!
