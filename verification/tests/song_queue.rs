use pitchperfect::song_queue::{
    QueuedSongStatus, Song, SongActor, SongActorMessage, SongActorResponse, SongCoordinatorError,
    SseEvent,
};

fn song(name: &str, uuid: u128, link: &str, pitch: bool) -> Song {
    Song {
        name: name.to_string(),
        uuid,
        yt_link: link.to_string(),
        status: QueuedSongStatus::InProgress,
        is_key_changeable: pitch,
    }
}

#[test]
fn enqueue_pop_and_key_bounds_scenario() {
    let mut actor = SongActor::new();

    let a = song("X", 1, "L1", false);
    assert!(actor.queue_song(a).is_ok());

    let dup = song("X", 2, "L2", true);
    let err = actor.queue_song(dup).unwrap_err();
    match err {
        SongCoordinatorError::SongAlreadyQueued { name } => assert_eq!(name, "X"),
        other => panic!("unexpected error: {:?}", other),
    }

    let popped = actor.pop_song().expect("queue held one song");
    assert_eq!(popped.name, "X");
    assert_eq!(popped.uuid, 1);
    assert!(actor.current_song().is_none());
    assert_eq!(actor.get_key(), 0);

    assert_eq!(actor.key_up().unwrap(), 1);
    assert_eq!(actor.key_up().unwrap(), 2);
    assert_eq!(actor.key_up().unwrap(), 3);
    let err = actor.key_up().unwrap_err();
    assert!(matches!(err, SongCoordinatorError::KeyUpFailed));
    assert_eq!(actor.get_key(), 3);
}

#[test]
fn enqueue_rejects_matching_uuid() {
    let mut actor = SongActor::new();
    assert!(actor.queue_song(song("A", 7, "L1", false)).is_ok());
    let err = actor.queue_song(song("B", 7, "L2", false)).unwrap_err();
    assert!(matches!(err, SongCoordinatorError::SongAlreadyQueued { .. }));
    assert_eq!(actor.get_queue().len(), 1);
}

#[test]
fn pop_resets_key_even_when_empty() {
    let mut actor = SongActor::new();
    actor.key_up().unwrap();
    actor.key_up().unwrap();
    assert_eq!(actor.get_key(), 2);
    assert!(actor.pop_song().is_none());
    assert_eq!(actor.get_key(), 0);
}

#[test]
fn key_down_stops_at_lower_bound() {
    let mut actor = SongActor::new();
    assert_eq!(actor.key_down().unwrap(), -1);
    assert_eq!(actor.key_down().unwrap(), -2);
    assert_eq!(actor.key_down().unwrap(), -3);
    let err = actor.key_down().unwrap_err();
    assert!(matches!(err, SongCoordinatorError::KeyDownFailed));
    assert_eq!(actor.get_key(), -3);
}

#[test]
fn reposition_clamps_to_tail() {
    let mut actor = SongActor::new();
    actor.queue_song(song("a", 1, "l", false)).unwrap();
    actor.queue_song(song("b", 2, "l", false)).unwrap();
    actor.queue_song(song("c", 3, "l", false)).unwrap();

    actor.reposition_song(1, 99).unwrap();
    let names: Vec<String> = actor.get_queue().iter().map(|s| s.name.clone()).collect();
    assert_eq!(names, vec!["b", "c", "a"]);
}

#[test]
fn reposition_moves_to_exact_index() {
    let mut actor = SongActor::new();
    actor.queue_song(song("a", 1, "l", false)).unwrap();
    actor.queue_song(song("b", 2, "l", false)).unwrap();
    actor.queue_song(song("c", 3, "l", false)).unwrap();

    actor.reposition_song(3, 0).unwrap();
    let names: Vec<String> = actor.get_queue().iter().map(|s| s.name.clone()).collect();
    assert_eq!(names, vec!["c", "a", "b"]);
}

#[test]
fn reposition_of_unknown_id_is_a_noop_success() {
    let mut actor = SongActor::new();
    actor.queue_song(song("a", 1, "l", false)).unwrap();
    assert!(actor.reposition_song(42, 0).is_ok());
    let names: Vec<String> = actor.get_queue().iter().map(|s| s.name.clone()).collect();
    assert_eq!(names, vec!["a"]);
}

#[test]
fn remove_is_a_noop_when_absent() {
    let mut actor = SongActor::new();
    actor.queue_song(song("a", 1, "l", false)).unwrap();
    actor.remove_song(99);
    assert_eq!(actor.get_queue().len(), 1);
    actor.remove_song(1);
    assert_eq!(actor.get_queue().len(), 0);
}

#[test]
fn update_status_requires_presence() {
    let mut actor = SongActor::new();
    actor.queue_song(song("a", 1, "l", false)).unwrap();
    assert!(actor.update_song_status(1, QueuedSongStatus::Success).is_ok());
    assert_eq!(actor.current_song().unwrap().status, QueuedSongStatus::Success);

    let err = actor.update_song_status(2, QueuedSongStatus::Failed).unwrap_err();
    match err {
        SongCoordinatorError::UpdateSongStatusFailed { uuid } => assert_eq!(uuid, 2),
        other => panic!("unexpected error: {:?}", other),
    }
}

#[test]
fn handle_message_publishes_queue_snapshots() {
    let mut actor = SongActor::new();
    let (resp, event) = actor.handle_message(SongActorMessage::QueueSong {
        song: song("a", 1, "l", false),
    });
    assert!(matches!(resp, SongActorResponse::Queued(Ok(()))));
    match event {
        Some(SseEvent::QueueUpdated { queue }) => {
            assert_eq!(queue.len(), 1);
            assert_eq!(queue[0].name, "a");
        }
        other => panic!("expected a queue snapshot, got {}", match other {
            Some(_) => "another event",
            None => "no event",
        }),
    }

    let (_, event) = actor.handle_message(SongActorMessage::KeyUp);
    match event {
        Some(SseEvent::KeyChange { current_key }) => assert_eq!(current_key, 1),
        _ => panic!("expected a key change event"),
    }

    let (resp, event) = actor.handle_message(SongActorMessage::GetKey);
    assert!(matches!(resp, SongActorResponse::Key(Ok(1))));
    assert!(event.is_none());

    let (resp, event) = actor.handle_message(SongActorMessage::Reposition {
        song_uuid: 999,
        position: 0,
    });
    assert!(matches!(resp, SongActorResponse::Repositioned(Ok(()))));
    assert!(event.is_none());

    actor.handle_message(SongActorMessage::KeyUp);
    actor.handle_message(SongActorMessage::KeyUp);
    let (resp, event) = actor.handle_message(SongActorMessage::KeyUp);
    assert!(matches!(resp, SongActorResponse::Key(Err(_))));
    assert!(event.is_none());
}

#[test]
fn replay_applies_messages_in_order() {
    let mut actor = SongActor::new();
    let msgs = vec![
        SongActorMessage::QueueSong { song: song("a", 1, "l", false) },
        SongActorMessage::QueueSong { song: song("b", 2, "l", false) },
        SongActorMessage::KeyUp,
        SongActorMessage::PopSong,
        SongActorMessage::QueueSong { song: song("c", 3, "l", false) },
    ];
    let count = msgs.len();
    let log = actor.replay_messages(msgs);
    assert_eq!(log.len(), count);
    let names: Vec<String> = actor.get_queue().iter().map(|s| s.name.clone()).collect();
    assert_eq!(names, vec!["b", "c"]);
    assert_eq!(actor.get_key(), 0);
}
