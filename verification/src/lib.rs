//! Playback queue engine and signed direct-link resolution for a music
//! streaming client.
//!
//! The crate holds the decisions of the client: which request comes next, how a
//! reply is judged, how a direct link is signed, and in which order tracks
//! play. Sending requests and driving the audio output is left to the caller,
//! who hands every reply back as a plain value.

pub mod error;
pub mod text;
pub mod api;
pub mod player;
