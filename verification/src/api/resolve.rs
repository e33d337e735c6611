//! Resolving a track to its audio.
//!
//! A resolution takes three requests, one after the other: the ways to
//! download the track, the signing page of the first of them, and the audio
//! itself from the signed link. The caller sends each request and hands the
//! reply to the function that names the next one.

use vstd::prelude::*;
use crate::api::signing::{
    direct_link, direct_link_text, link_len, signature_text, signing_fields, SigningFields,
};
use crate::api::types::{DownloadInfo, TrackData, TrackID};
use crate::error::{ApiError, Reply};

verus! {

/// The way to download a track that is taken: the first that the service
/// names. A reply that names none is a parse error.
pub open spec fn chosen_download(reply: Reply<Vec<DownloadInfo>>) -> Result<DownloadInfo, ApiError> {
    match reply.outcome() {
        Ok(infos) => if infos@.len() > 0 {
            Ok(infos@[0])
        } else {
            Err(ApiError::Parse)
        },
        Err(error) => Err(error),
    }
}

/// The signing page of a reply, judged as [`signing_fields`] judges it.
pub open spec fn signed_fields(reply: Reply<Vec<u8>>) -> Result<SigningFields, ApiError> {
    match reply.outcome() {
        Ok(page) => signing_fields(page@),
        Err(error) => Err(error),
    }
}

/// Picks the way to download a track from the reply that lists them.
pub fn select_download(reply: Reply<Vec<DownloadInfo>>) -> (result: Result<DownloadInfo, ApiError>)
    ensures
        result == chosen_download(reply),
{
    match reply.into_result() {
        Ok(infos) => {
            let mut infos = infos;
            if infos.len() > 0 {
                Ok(infos.swap_remove(0))
            } else {
                Err(ApiError::Parse)
            }
        },
        Err(error) => Err(error),
    }
}

/// Names the second request, for the signing page, from the reply to the first.
pub fn signing_page_url(reply: Reply<Vec<DownloadInfo>>) -> (result: Result<String, ApiError>)
    ensures
        match result {
            Ok(url) => chosen_download(reply) matches Ok(info) && url == info.url,
            Err(error) => chosen_download(reply) == Err::<DownloadInfo, ApiError>(error),
        },
{
    match select_download(reply) {
        Ok(info) => Ok(info.url),
        Err(error) => Err(error),
    }
}

/// Names the third request, for the audio, from the reply to the second.
pub fn audio_url(reply: Reply<Vec<u8>>) -> (result: Result<String, ApiError>)
    ensures
        match result {
            Ok(url) => {
                &&& signed_fields(reply) matches Ok(fields)
                &&& url@ == direct_link_text(fields)
                &&& signature_text(fields.path, fields.s).len() == 32
                &&& url@.len() == link_len(fields)
            },
            Err(error) => signed_fields(reply) == Err::<SigningFields, ApiError>(error),
        },
{
    match reply.into_result() {
        Ok(page) => direct_link(page.as_slice()),
        Err(error) => Err(error),
    }
}

/// Wraps the reply to the third request, with the time at which it arrived.
pub fn download_data(id: TrackID, reply: Reply<Vec<u8>>, loaded: std::time::Instant) -> (result:
    Result<TrackData, ApiError>)
    ensures
        match result {
            Ok(blob) => reply.outcome() == Ok::<Vec<u8>, ApiError>(blob.data) && blob.id == id
                && blob.loaded == loaded,
            Err(error) => reply.outcome() == Err::<Vec<u8>, ApiError>(error),
        },
{
    match reply.into_result() {
        Ok(data) => Ok(TrackData { id, loaded, data }),
        Err(error) => Err(error),
    }
}

} // verus!
