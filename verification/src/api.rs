//! Request payloads of the HTTP surface and the decisions they carry:
//! which actor message a request becomes, and when it is rejected before
//! reaching the actor.  The HTTP layer itself lives outside this crate;
//! it hands these functions the deserialized payloads.

use vstd::prelude::*;
use crate::song_queue::{QueuedSongStatus, Song, SongActorMessage};

verus! {

/// Body of a request to queue a song.
pub struct QueueSong {
    pub name: String,
    pub yt_link: String,
    pub is_key_changeable: bool,
}

/// Query of a search request.
pub struct SearchSong {
    pub query: String,
}

/// Body of a request to move a song.
pub struct RepositionSongRequest {
    pub song_uuid: String,
    pub position: usize,
}

/// Body of a request to remove a song.
pub struct DeleteSongRequest {
    pub song_uuid: String,
}

/// The identity token a textual identifier parses to, as the identifier
/// library defines it.
pub uninterp spec fn uuid_of_str(s: Seq<char>) -> Option<u128>;

/// Relies on uuid::Uuid::parse_str, read out through Uuid::as_u128: the
/// accepted forms and the resulting token depend on the characters alone.
#[verifier::external_body]
fn parse_uuid(s: &str) -> (r: Option<u128>)
    ensures
        r == uuid_of_str(s@),
{
    match uuid::Uuid::parse_str(s) {
        Ok(u) => Some(u.as_u128()),
        Err(_) => None,
    }
}

/// The song a queue request creates: in progress, carrying the request's
/// name, locator and pitch choice, under a fresh identity.
pub fn queued_song_from_request(req: QueueSong) -> (s: Song)
    ensures
        s@.name == req.name@,
        s@.yt_link == req.yt_link@,
        s@.status == QueuedSongStatus::InProgress,
        s@.is_key_changeable == req.is_key_changeable,
{
    Song::new(req.name, req.yt_link, QueuedSongStatus::InProgress, req.is_key_changeable)
}

/// The actor message a reposition request becomes, or `None` when its
/// identifier does not parse — the request is then rejected without
/// touching the actor.
pub fn reposition_message(req: &RepositionSongRequest) -> (r: Option<SongActorMessage>)
    ensures
        match r {
            Some(msg) => uuid_of_str(req.song_uuid@) matches Some(u)
                && msg == (SongActorMessage::Reposition { song_uuid: u, position: req.position }),
            None => uuid_of_str(req.song_uuid@) is None,
        },
{
    match parse_uuid(req.song_uuid.as_str()) {
        Some(u) => Some(SongActorMessage::Reposition { song_uuid: u, position: req.position }),
        None => None,
    }
}

/// The actor message a removal request becomes, or `None` when its
/// identifier does not parse.
pub fn remove_message(req: &DeleteSongRequest) -> (r: Option<SongActorMessage>)
    ensures
        match r {
            Some(msg) => uuid_of_str(req.song_uuid@) matches Some(u)
                && msg == (SongActorMessage::RemoveSong { song_uuid: u }),
            None => uuid_of_str(req.song_uuid@) is None,
        },
{
    match parse_uuid(req.song_uuid.as_str()) {
        Some(u) => Some(SongActorMessage::RemoveSong { song_uuid: u }),
        None => None,
    }
}

} // verus!
