use pitchperfect::broadcast::{BroadcastChannel, BROADCAST_CAPACITY};
use pitchperfect::song_queue::SseEvent;

#[test]
fn subscribers_receive_events_published_after_subscribing() {
    let mut chan = BroadcastChannel::new(BROADCAST_CAPACITY);
    chan.publish(SseEvent::TogglePlayback);

    let mut sub = chan.subscribe();
    assert!(chan.recv(&mut sub).is_none());

    chan.publish(SseEvent::KeyChange { current_key: 1 });
    chan.publish(SseEvent::RestartSong);

    match chan.recv(&mut sub) {
        Some(SseEvent::KeyChange { current_key }) => assert_eq!(*current_key, 1),
        _ => panic!("expected the key change first"),
    }
    assert!(matches!(chan.recv(&mut sub), Some(SseEvent::RestartSong)));
    assert!(chan.recv(&mut sub).is_none());
}

#[test]
fn a_lagging_subscriber_resumes_from_the_oldest_retained_event() {
    let mut chan = BroadcastChannel::new(2);
    let mut sub = chan.subscribe();

    chan.publish(SseEvent::KeyChange { current_key: 1 });
    chan.publish(SseEvent::KeyChange { current_key: 2 });
    chan.publish(SseEvent::KeyChange { current_key: 3 });
    chan.publish(SseEvent::KeyChange { current_key: 4 });

    // Four events were published but only the last two are within the
    // bound: the subscriber silently skips to key 3.
    match chan.recv(&mut sub) {
        Some(SseEvent::KeyChange { current_key }) => assert_eq!(*current_key, 3),
        _ => panic!("expected to resume at the oldest retained event"),
    }
    match chan.recv(&mut sub) {
        Some(SseEvent::KeyChange { current_key }) => assert_eq!(*current_key, 4),
        _ => panic!("expected the newest event next"),
    }
    assert!(chan.recv(&mut sub).is_none());
}

#[test]
fn publishing_succeeds_with_no_subscribers() {
    let mut chan = BroadcastChannel::new(1);
    chan.publish(SseEvent::TogglePlayback);
    chan.publish(SseEvent::RestartSong);
    let mut sub = chan.subscribe();
    assert!(chan.recv(&mut sub).is_none());
}
