use pitchperfect::api::{
    queued_song_from_request, remove_message, reposition_message, DeleteSongRequest, QueueSong,
    RepositionSongRequest,
};
use pitchperfect::song_queue::{QueuedSongStatus, SongActorMessage};

#[test]
fn reposition_request_parses_the_identifier() {
    let req = RepositionSongRequest {
        song_uuid: "67e55044-10b1-426f-9247-bb680e5fe0c8".to_string(),
        position: 2,
    };
    match reposition_message(&req) {
        Some(SongActorMessage::Reposition { song_uuid, position }) => {
            assert_eq!(song_uuid, 0x67e5504410b1426f9247bb680e5fe0c8u128);
            assert_eq!(position, 2);
        }
        _ => panic!("expected a reposition message"),
    }
}

#[test]
fn bad_identifiers_are_rejected_before_the_actor() {
    let req = RepositionSongRequest { song_uuid: "not-an-id".to_string(), position: 0 };
    assert!(reposition_message(&req).is_none());

    let req = DeleteSongRequest { song_uuid: "".to_string() };
    assert!(remove_message(&req).is_none());
}

#[test]
fn remove_request_parses_the_identifier() {
    let req = DeleteSongRequest {
        song_uuid: "00000000-0000-0000-0000-000000000001".to_string(),
    };
    match remove_message(&req) {
        Some(SongActorMessage::RemoveSong { song_uuid }) => assert_eq!(song_uuid, 1),
        _ => panic!("expected a removal message"),
    }
}

#[test]
fn a_queue_request_becomes_an_in_progress_song() {
    let req = QueueSong {
        name: "X".to_string(),
        yt_link: "L1".to_string(),
        is_key_changeable: true,
    };
    let song = queued_song_from_request(req);
    assert_eq!(song.name, "X");
    assert_eq!(song.yt_link, "L1");
    assert_eq!(song.status, QueuedSongStatus::InProgress);
    assert!(song.is_key_changeable);
}

#[test]
fn fresh_songs_get_distinct_identities() {
    let a = queued_song_from_request(QueueSong {
        name: "a".to_string(),
        yt_link: "l".to_string(),
        is_key_changeable: false,
    });
    let b = queued_song_from_request(QueueSong {
        name: "b".to_string(),
        yt_link: "l".to_string(),
        is_key_changeable: false,
    });
    assert_ne!(a.uuid, b.uuid);
}
