//! The song queue actor: the single owner of the ordered song queue and of
//! the global key offset.  Every mutation of queue state goes through
//! [`SongActor::handle_message`], so processing messages one at a time
//! serializes all mutations.  The driver that owns the mailbox and the
//! broadcast channel lives outside this crate; it forwards each received
//! message to `handle_message` and publishes the returned event, if any.

use vstd::prelude::*;
use std::collections::VecDeque;

verus! {

/// Processing status of a queued song.
#[derive(Clone, Copy, PartialEq, Eq, Structural, Debug)]
pub enum QueuedSongStatus {
    InProgress,
    Failed,
    Success,
}

/// One queued song.  `uuid` is the song's stable identity for its whole
/// lifetime in the queue; `name` doubles as the cache key of its media
/// assets.
pub struct Song {
    pub name: String,
    pub uuid: u128,
    pub yt_link: String,
    pub status: QueuedSongStatus,
    pub is_key_changeable: bool,
}

/// Mathematical value of a [`Song`].
pub ghost struct SongView {
    pub name: Seq<char>,
    pub uuid: u128,
    pub yt_link: Seq<char>,
    pub status: QueuedSongStatus,
    pub is_key_changeable: bool,
}

impl View for Song {
    type V = SongView;

    open spec fn view(&self) -> SongView {
        SongView {
            name: self.name@,
            uuid: self.uuid,
            yt_link: self.yt_link@,
            status: self.status,
            is_key_changeable: self.is_key_changeable,
        }
    }
}

/// Duplicate policy: two songs collide when they share the identity token
/// or the display name.
pub open spec fn songs_match(a: SongView, b: SongView) -> bool {
    a.uuid == b.uuid || a.name == b.name
}

impl Song {
    /// Creates a song with a freshly drawn identity token.
    pub fn new(name: String, yt_link: String, status: QueuedSongStatus, is_key_changeable: bool) -> (s: Song)
        ensures
            s@.name == name@,
            s@.yt_link == yt_link@,
            s@.status == status,
            s@.is_key_changeable == is_key_changeable,
    {
        Song { name, uuid: random_uuid(), yt_link, status, is_key_changeable }
    }
}

/// Relies on uuid::Uuid::new_v4 to draw a fresh random identifier, read out
/// through Uuid::as_u128.  The value is random, so nothing is assumed of it.
#[verifier::external_body]
fn random_uuid() -> u128 {
    uuid::Uuid::new_v4().as_u128()
}

impl Clone for Song {
    fn clone(&self) -> (s: Song)
        ensures
            s == *self,
    {
        Song {
            name: self.name.clone(),
            uuid: self.uuid,
            yt_link: self.yt_link.clone(),
            status: self.status,
            is_key_changeable: self.is_key_changeable,
        }
    }
}

impl PartialEq for Song {
    fn eq(&self, other: &Song) -> (r: bool) {
        self.uuid == other.uuid || self.name == other.name
    }
}

impl vstd::std_specs::cmp::PartialEqSpecImpl for Song {
    open spec fn obeys_eq_spec() -> bool {
        true
    }

    open spec fn eq_spec(&self, other: &Song) -> bool {
        songs_match(self@, other@)
    }
}

/// State-change notification fanned out to every subscriber.
pub enum SseEvent {
    QueueUpdated { queue: VecDeque<Song> },
    KeyChange { current_key: i8 },
    TogglePlayback,
    RestartSong,
}

/// Errors returned synchronously by the queue actor.  They are recoverable:
/// the actor keeps serving messages after reporting one.
#[derive(Debug)]
pub enum SongCoordinatorError {
    QueueSongFailed { uuid: u128 },
    SongAlreadyQueued { name: String },
    RemoveSongFailed { uuid: u128 },
    PopSongFailed,
    RepositionSongFailed { uuid: u128 },
    GetCurrentSongFailed,
    GetQueueFailed,
    KeyUpFailed,
    KeyDownFailed,
    UpdateSongStatusFailed { uuid: u128 },
    SseBroadcastFailed,
}

/// A request accepted into the actor's mailbox.  The driver pairs each
/// message with a single-use response channel; the payload modelled here is
/// what the actor's transition function consumes.
pub enum SongActorMessage {
    QueueSong { song: Song },
    RemoveSong { song_uuid: u128 },
    PopSong,
    Reposition { song_uuid: u128, position: usize },
    Current,
    GetQueue,
    KeyUp,
    KeyDown,
    GetKey,
    UpdateSongStatus { song_uuid: u128, status: QueuedSongStatus },
}

/// The actor's answer to one message; exactly one is produced per message.
pub enum SongActorResponse {
    Queued(Result<(), SongCoordinatorError>),
    Removed,
    Popped(Option<Song>),
    Repositioned(Result<(), SongCoordinatorError>),
    Current(Option<Song>),
    Queue(VecDeque<Song>),
    Key(Result<i8, SongCoordinatorError>),
    StatusUpdated(Result<(), SongCoordinatorError>),
}

/// Mathematical state of the actor: the play-ordered queue and the key
/// offset.
pub ghost struct SongActorView {
    pub songs: Seq<SongView>,
    pub key: int,
}

/// The queue actor's state.  Nothing outside the actor mutates it.
pub struct SongActor {
    song_deque: VecDeque<Song>,
    current_key: i8,
}

impl View for SongActor {
    type V = SongActorView;

    closed spec fn view(&self) -> SongActorView {
        SongActorView {
            songs: self.song_deque@.map_values(|s: Song| s@),
            key: self.current_key as int,
        }
    }
}

/// The key offset never leaves the closed interval [-3, 3].
pub const KEY_BOUND: i8 = 3;

/// Some queued song collides with `song` under the duplicate policy.
pub open spec fn has_matching(songs: Seq<SongView>, song: SongView) -> bool {
    exists|i: int| 0 <= i < songs.len() && songs_match(songs[i], song)
}

/// `i` is the position of the first song carrying `uuid`.
pub open spec fn is_first_with_uuid(songs: Seq<SongView>, uuid: u128, i: int) -> bool {
    &&& 0 <= i < songs.len()
    &&& songs[i].uuid == uuid
    &&& forall|j: int| 0 <= j < i ==> songs[j].uuid != uuid
}

/// Position of the first song carrying `uuid`, if any.
pub open spec fn first_with_uuid(songs: Seq<SongView>, uuid: u128) -> Option<int> {
    if exists|i: int| is_first_with_uuid(songs, uuid, i) {
        Some(choose|i: int| is_first_with_uuid(songs, uuid, i))
    } else {
        None
    }
}

pub open spec fn spec_queue_song(v: SongActorView, song: SongView) -> SongActorView {
    if has_matching(v.songs, song) {
        v
    } else {
        SongActorView { songs: v.songs.push(song), key: v.key }
    }
}

pub open spec fn spec_remove_song(v: SongActorView, uuid: u128) -> SongActorView {
    match first_with_uuid(v.songs, uuid) {
        Some(i) => SongActorView { songs: v.songs.remove(i), key: v.key },
        None => v,
    }
}

pub open spec fn spec_pop_song(v: SongActorView) -> SongActorView {
    SongActorView {
        songs: if v.songs.len() > 0 { v.songs.drop_first() } else { v.songs },
        key: 0,
    }
}

pub open spec fn spec_reposition(v: SongActorView, uuid: u128, position: int) -> SongActorView {
    match first_with_uuid(v.songs, uuid) {
        Some(i) => {
            let song = v.songs[i];
            let rest = v.songs.remove(i);
            let dest = vstd::math::min(position, rest.len() as int);
            SongActorView { songs: rest.insert(dest, song), key: v.key }
        },
        None => v,
    }
}

pub open spec fn spec_key_up(v: SongActorView) -> SongActorView {
    if v.key >= KEY_BOUND as int {
        v
    } else {
        SongActorView { songs: v.songs, key: v.key + 1 }
    }
}

pub open spec fn spec_key_down(v: SongActorView) -> SongActorView {
    if v.key <= -(KEY_BOUND as int) {
        v
    } else {
        SongActorView { songs: v.songs, key: v.key - 1 }
    }
}

pub open spec fn spec_update_status(v: SongActorView, uuid: u128, status: QueuedSongStatus) -> SongActorView {
    match first_with_uuid(v.songs, uuid) {
        Some(i) => {
            let song = v.songs[i];
            let updated = SongView { status, ..song };
            SongActorView { songs: v.songs.update(i, updated), key: v.key }
        },
        None => v,
    }
}

/// One step of the actor: the state after handling `msg` from state `v`.
pub open spec fn spec_handle(v: SongActorView, msg: SongActorMessage) -> SongActorView {
    match msg {
        SongActorMessage::QueueSong { song } => spec_queue_song(v, song@),
        SongActorMessage::RemoveSong { song_uuid } => spec_remove_song(v, song_uuid),
        SongActorMessage::PopSong => spec_pop_song(v),
        SongActorMessage::Reposition { song_uuid, position } => spec_reposition(v, song_uuid, position as int),
        SongActorMessage::Current => v,
        SongActorMessage::GetQueue => v,
        SongActorMessage::KeyUp => spec_key_up(v),
        SongActorMessage::KeyDown => spec_key_down(v),
        SongActorMessage::GetKey => v,
        SongActorMessage::UpdateSongStatus { song_uuid, status } => spec_update_status(v, song_uuid, status),
    }
}

/// The state after handling a whole sequence of messages in order.
pub open spec fn spec_replay(v: SongActorView, msgs: Seq<SongActorMessage>) -> SongActorView
    decreases msgs.len(),
{
    if msgs.len() == 0 {
        v
    } else {
        spec_replay(spec_handle(v, msgs[0]), msgs.drop_first())
    }
}

impl SongActor {
    /// The key offset stays within its bound.
    pub open spec fn wf(self) -> bool {
        -(KEY_BOUND as int) <= self@.key <= KEY_BOUND as int
    }

    /// A fresh actor: empty queue, neutral key.
    pub fn new() -> (actor: SongActor)
        ensures
            actor.wf(),
            actor@.songs == Seq::<SongView>::empty(),
            actor@.key == 0,
    {
        let actor = SongActor { song_deque: VecDeque::new(), current_key: 0 };
        proof {
            assert(actor@.songs =~= Seq::<SongView>::empty());
        }
        actor
    }

    /// Mirrors the duplicate scan of the queue.
    fn contains_match(&self, song: &Song) -> (r: bool)
        ensures
            r == has_matching(self@.songs, song@),
    {
        let n = self.song_deque.len();
        let mut i: usize = 0;
        while i < n
            invariant
                i <= n,
                n == self.song_deque.len(),
                forall|j: int| 0 <= j < i ==> !songs_match(self@.songs[j], song@),
            decreases n - i,
        {
            if self.song_deque[i] == *song {
                assert(songs_match(self@.songs[i as int], song@));
                return true;
            }
            i += 1;
        }
        false
    }

    /// Position of the first song carrying `uuid`, as the queue is scanned
    /// front to back.
    fn find_uuid(&self, uuid: u128) -> (r: Option<usize>)
        ensures
            match r {
                Some(i) => is_first_with_uuid(self@.songs, uuid, i as int)
                    && first_with_uuid(self@.songs, uuid) == Some(i as int),
                None => first_with_uuid(self@.songs, uuid) is None,
            },
    {
        let n = self.song_deque.len();
        let mut i: usize = 0;
        while i < n
            invariant
                i <= n,
                n == self.song_deque.len(),
                forall|j: int| 0 <= j < i ==> self@.songs[j].uuid != uuid,
            decreases n - i,
        {
            if self.song_deque[i].uuid == uuid {
                proof {
                    assert(is_first_with_uuid(self@.songs, uuid, i as int));
                    let w = choose|k: int| is_first_with_uuid(self@.songs, uuid, k);
                    assert(is_first_with_uuid(self@.songs, uuid, w));
                    assert(w == i as int);
                }
                return Some(i);
            }
            i += 1;
        }
        proof {
            if exists|k: int| is_first_with_uuid(self@.songs, uuid, k) {
                let w = choose|k: int| is_first_with_uuid(self@.songs, uuid, k);
                assert(self@.songs[w].uuid != uuid);
            }
        }
        None
    }

    /// Appends `song` unless a queued song collides with it by identity or
    /// by name; a collision leaves the queue untouched.
    pub fn queue_song(&mut self, song: Song) -> (r: Result<(), SongCoordinatorError>)
        requires
            old(self).wf(),
        ensures
            final(self).wf(),
            final(self)@ == spec_queue_song(old(self)@, song@),
            r is Ok <==> !has_matching(old(self)@.songs, song@),
            r matches Err(e) ==> e matches SongCoordinatorError::SongAlreadyQueued { name } && name@ == song@.name,
    {
        if self.contains_match(&song) {
            Err(SongCoordinatorError::SongAlreadyQueued { name: song.name })
        } else {
            self.song_deque.push_back(song);
            proof {
                assert(self@.songs =~= spec_queue_song(old(self)@, song@).songs);
            }
            Ok(())
        }
    }

    /// Removes the song carrying `uuid`; absence is a successful no-op.
    pub fn remove_song(&mut self, song_uuid: u128)
        requires
            old(self).wf(),
        ensures
            final(self).wf(),
            final(self)@ == spec_remove_song(old(self)@, song_uuid),
    {
        match self.find_uuid(song_uuid) {
            Some(i) => {
                self.song_deque.remove(i);
                proof {
                    let gi = first_with_uuid(old(self)@.songs, song_uuid).unwrap();
                    assert(self@.songs =~= old(self)@.songs.remove(gi));
                }
            },
            None => {},
        }
    }

    /// Removes and returns the head of the queue; always resets the key
    /// offset to neutral, even when the queue was already empty.
    pub fn pop_song(&mut self) -> (r: Option<Song>)
        requires
            old(self).wf(),
        ensures
            final(self).wf(),
            final(self)@ == spec_pop_song(old(self)@),
            final(self)@.key == 0,
            match r {
                Some(song) => old(self)@.songs.len() > 0 && song@ == old(self)@.songs[0],
                None => old(self)@.songs.len() == 0,
            },
    {
        let next = self.song_deque.pop_front();
        self.current_key = 0;
        proof {
            assert(self@.songs =~= spec_pop_song(old(self)@).songs);
        }
        next
    }

    /// Moves the song carrying `uuid` to `position`, clamped to the tail of
    /// the queue; an unknown `uuid` is a successful no-op.
    pub fn reposition_song(&mut self, song_uuid: u128, position: usize) -> (r: Result<(), SongCoordinatorError>)
        requires
            old(self).wf(),
        ensures
            final(self).wf(),
            final(self)@ == spec_reposition(old(self)@, song_uuid, position as int),
            r is Ok,
    {
        match self.find_uuid(song_uuid) {
            Some(i) => {
                let song = match self.song_deque.remove(i) {
                    Some(song) => song,
                    None => { return Ok(()); },
                };
                let len = self.song_deque.len();
                let dest = if position < len { position } else { len };
                self.song_deque.insert(dest, song);
                proof {
                    let gi = first_with_uuid(old(self)@.songs, song_uuid).unwrap();
                    let rest = old(self)@.songs.remove(gi);
                    let gdest = vstd::math::min(position as int, rest.len() as int);
                    assert(self@.songs =~= rest.insert(gdest, old(self)@.songs[gi]));
                }
                Ok(())
            },
            None => Ok(()),
        }
    }

    /// Read-only view of the head of the queue.
    pub fn current_song(&self) -> (r: Option<Song>)
        ensures
            match r {
                Some(song) => self@.songs.len() > 0 && song@ == self@.songs[0],
                None => self@.songs.len() == 0,
            },
    {
        if self.song_deque.len() > 0 {
            Some(self.song_deque[0].clone())
        } else {
            None
        }
    }

    /// Read-only ordered copy of the whole queue.
    pub fn get_queue(&self) -> (r: VecDeque<Song>)
        ensures
            r@.map_values(|s: Song| s@) == self@.songs,
    {
        let r = self.song_deque.clone();
        proof {
            assert(r@.map_values(|s: Song| s@) =~= self@.songs);
        }
        r
    }

    /// Raises the key offset; at the upper bound it fails and leaves the
    /// state untouched.
    pub fn key_up(&mut self) -> (r: Result<i8, SongCoordinatorError>)
        requires
            old(self).wf(),
        ensures
            final(self).wf(),
            final(self)@ == spec_key_up(old(self)@),
            final(self)@.key <= KEY_BOUND as int,
            old(self)@.key >= KEY_BOUND as int ==> (r matches Err(SongCoordinatorError::KeyUpFailed)
                && final(self)@ == old(self)@),
            old(self)@.key < KEY_BOUND as int ==> (r matches Ok(k) && k as int == old(self)@.key + 1
                && final(self)@.key == old(self)@.key + 1),
    {
        if self.current_key >= KEY_BOUND {
            Err(SongCoordinatorError::KeyUpFailed)
        } else {
            self.current_key = self.current_key + 1;
            Ok(self.current_key)
        }
    }

    /// Lowers the key offset; at the lower bound it fails and leaves the
    /// state untouched.
    pub fn key_down(&mut self) -> (r: Result<i8, SongCoordinatorError>)
        requires
            old(self).wf(),
        ensures
            final(self).wf(),
            final(self)@ == spec_key_down(old(self)@),
            final(self)@.key >= -(KEY_BOUND as int),
            old(self)@.key <= -(KEY_BOUND as int) ==> (r matches Err(SongCoordinatorError::KeyDownFailed)
                && final(self)@ == old(self)@),
            old(self)@.key > -(KEY_BOUND as int) ==> (r matches Ok(k) && k as int == old(self)@.key - 1
                && final(self)@.key == old(self)@.key - 1),
    {
        if self.current_key <= -KEY_BOUND {
            Err(SongCoordinatorError::KeyDownFailed)
        } else {
            self.current_key = self.current_key - 1;
            Ok(self.current_key)
        }
    }

    /// Read-only key offset.
    pub fn get_key(&self) -> (r: i8)
        ensures
            r as int == self@.key,
    {
        self.current_key
    }

    /// Sets the status of the song carrying `uuid`; fails when no queued
    /// song carries it.
    pub fn update_song_status(&mut self, song_uuid: u128, status: QueuedSongStatus) -> (r: Result<(), SongCoordinatorError>)
        requires
            old(self).wf(),
        ensures
            final(self).wf(),
            final(self)@ == spec_update_status(old(self)@, song_uuid, status),
            r is Ok <==> first_with_uuid(old(self)@.songs, song_uuid) is Some,
            r matches Err(e) ==> e matches SongCoordinatorError::UpdateSongStatusFailed { uuid } && uuid == song_uuid,
    {
        match self.find_uuid(song_uuid) {
            Some(i) => {
                let song = match self.song_deque.remove(i) {
                    Some(song) => song,
                    None => { return Err(SongCoordinatorError::UpdateSongStatusFailed { uuid: song_uuid }); },
                };
                let updated = Song { status, ..song };
                self.song_deque.insert(i, updated);
                proof {
                    let gi = first_with_uuid(old(self)@.songs, song_uuid).unwrap();
                    assert(self@.songs =~= spec_update_status(old(self)@, song_uuid, status).songs);
                }
                Ok(())
            },
            None => Err(SongCoordinatorError::UpdateSongStatusFailed { uuid: song_uuid }),
        }
    }

    /// Handles one message: mutates the state exactly as [`spec_handle`]
    /// says, and returns the one response owed to the message's sender
    /// together with the event to publish, if any, exactly as
    /// [`is_handle_outcome`] says.
    pub fn handle_message(&mut self, msg: SongActorMessage) -> (r: (SongActorResponse, Option<SseEvent>))
        requires
            old(self).wf(),
        ensures
            final(self).wf(),
            final(self)@ == spec_handle(old(self)@, msg),
            is_handle_outcome(old(self)@, final(self)@, msg, r.0, r.1),
    {
        match msg {
            SongActorMessage::QueueSong { song } => {
                let res = self.queue_song(song);
                let ev = if res.is_ok() {
                    Some(SseEvent::QueueUpdated { queue: self.get_queue() })
                } else {
                    None
                };
                (SongActorResponse::Queued(res), ev)
            },
            SongActorMessage::RemoveSong { song_uuid } => {
                self.remove_song(song_uuid);
                let ev = Some(SseEvent::QueueUpdated { queue: self.get_queue() });
                (SongActorResponse::Removed, ev)
            },
            SongActorMessage::PopSong => {
                let popped = self.pop_song();
                let ev = Some(SseEvent::QueueUpdated { queue: self.get_queue() });
                (SongActorResponse::Popped(popped), ev)
            },
            SongActorMessage::Reposition { song_uuid, position } => {
                let found = self.find_uuid(song_uuid).is_some();
                let res = self.reposition_song(song_uuid, position);
                let ev = if found {
                    Some(SseEvent::QueueUpdated { queue: self.get_queue() })
                } else {
                    None
                };
                (SongActorResponse::Repositioned(res), ev)
            },
            SongActorMessage::Current => {
                (SongActorResponse::Current(self.current_song()), None)
            },
            SongActorMessage::GetQueue => {
                (SongActorResponse::Queue(self.get_queue()), None)
            },
            SongActorMessage::KeyUp => {
                let res = self.key_up();
                let ev = if res.is_ok() {
                    Some(SseEvent::KeyChange { current_key: self.get_key() })
                } else {
                    None
                };
                (SongActorResponse::Key(res), ev)
            },
            SongActorMessage::KeyDown => {
                let res = self.key_down();
                let ev = if res.is_ok() {
                    Some(SseEvent::KeyChange { current_key: self.get_key() })
                } else {
                    None
                };
                (SongActorResponse::Key(res), ev)
            },
            SongActorMessage::GetKey => {
                (SongActorResponse::Key(Ok(self.get_key())), None)
            },
            SongActorMessage::UpdateSongStatus { song_uuid, status } => {
                let res = self.update_song_status(song_uuid, status);
                let ev = if res.is_ok() {
                    Some(SseEvent::QueueUpdated { queue: self.get_queue() })
                } else {
                    None
                };
                (SongActorResponse::StatusUpdated(res), ev)
            },
        }
    }

    /// Serializability: handling messages one at a time, in the order they
    /// were accepted into the mailbox, leaves exactly the state of the
    /// sequential replay of that order — and yields exactly one response
    /// per message, each the response owed for its message at its point
    /// of the replay.
    pub fn replay_messages(&mut self, msgs: Vec<SongActorMessage>) -> (log: Vec<(SongActorResponse, Option<SseEvent>)>)
        requires
            old(self).wf(),
        ensures
            final(self).wf(),
            final(self)@ == spec_replay(old(self)@, msgs@),
            log@.len() == msgs@.len(),
            forall|i: int|
                0 <= i < msgs@.len() ==> is_handle_outcome(
                    spec_replay(old(self)@, msgs@.take(i)),
                    spec_replay(old(self)@, msgs@.take(i + 1)),
                    msgs@[i],
                    (#[trigger] log@[i]).0,
                    log@[i].1,
                ),
    {
        let mut log: Vec<(SongActorResponse, Option<SseEvent>)> = Vec::new();
        let mut rest = msgs;
        proof {
            assert(msgs@.take(0) =~= Seq::<SongActorMessage>::empty());
            assert(rest@ =~= msgs@.skip(0));
        }
        while rest.len() > 0
            invariant
                self.wf(),
                log@.len() + rest@.len() == msgs@.len(),
                rest@ == msgs@.skip(log@.len() as int),
                self@ == spec_replay(old(self)@, msgs@.take(log@.len() as int)),
                forall|i: int|
                    0 <= i < log@.len() ==> is_handle_outcome(
                        spec_replay(old(self)@, msgs@.take(i)),
                        spec_replay(old(self)@, msgs@.take(i + 1)),
                        msgs@[i],
                        (#[trigger] log@[i]).0,
                        log@[i].1,
                    ),
            decreases rest@.len(),
        {
            let ghost k = log@.len() as int;
            let msg = rest.remove(0);
            proof {
                assert(msgs@.skip(k).remove(0) =~= msgs@.skip(k + 1));
                assert(msg == msgs@[k]);
                assert(msgs@.take(k + 1) =~= msgs@.take(k).push(msgs@[k]));
                lemma_spec_replay_snoc(old(self)@, msgs@.take(k), msgs@[k]);
            }
            let out = self.handle_message(msg);
            log.push(out);
        }
        proof {
            assert(msgs@.take(msgs@.len() as int) =~= msgs@);
        }
        log
    }
}

/// Replaying one more message is one more handling step.
proof fn lemma_spec_replay_snoc(v: SongActorView, msgs: Seq<SongActorMessage>, msg: SongActorMessage)
    ensures
        spec_replay(v, msgs.push(msg)) == spec_handle(spec_replay(v, msgs), msg),
    decreases msgs.len(),
{
    if msgs.len() == 0 {
        reveal_with_fuel(spec_replay, 3);
        assert(msgs.push(msg)[0] == msg);
        assert(msgs.push(msg).drop_first() =~= Seq::<SongActorMessage>::empty());
    } else {
        assert(msgs.push(msg)[0] == msgs[0]);
        assert(msgs.push(msg).drop_first() =~= msgs.drop_first().push(msg));
        lemma_spec_replay_snoc(spec_handle(v, msgs[0]), msgs.drop_first(), msg);
    }
}

/// The event accompanying a queue mutation is a snapshot of the queue as
/// the mutation left it.
pub open spec fn is_queue_event(e: Option<SseEvent>, songs: Seq<SongView>) -> bool {
    e matches Some(SseEvent::QueueUpdated { queue }) && queue@.map_values(|s: Song| s@) == songs
}

/// The event accompanying a key change carries the new offset.
pub open spec fn is_key_event(e: Option<SseEvent>, key: int) -> bool {
    e matches Some(SseEvent::KeyChange { current_key }) && current_key as int == key
}

/// The response and event owed for handling `msg` from state `pre`,
/// leaving state `post`: exactly one response, of the message's kind,
/// carrying what the operation's contract fixes; and a queue snapshot or
/// key-change event exactly when the operation publishes one.
pub open spec fn is_handle_outcome(
    pre: SongActorView,
    post: SongActorView,
    msg: SongActorMessage,
    resp: SongActorResponse,
    ev: Option<SseEvent>,
) -> bool {
    &&& msg matches SongActorMessage::QueueSong { song } ==> (resp
        matches SongActorResponse::Queued(res)
        && (res is Ok <==> !has_matching(pre.songs, song@))
        && (res is Ok ==> is_queue_event(ev, post.songs))
        && (res is Err ==> ev is None))
    &&& msg matches SongActorMessage::RemoveSong { song_uuid } ==> (resp is Removed
        && is_queue_event(ev, post.songs))
    &&& msg is PopSong ==> (resp matches SongActorResponse::Popped(popped)
        && (match popped {
            Some(song) => pre.songs.len() > 0 && song@ == pre.songs[0],
            None => pre.songs.len() == 0,
        })
        && is_queue_event(ev, post.songs))
    &&& msg matches SongActorMessage::Reposition { song_uuid, position } ==> (resp
        matches SongActorResponse::Repositioned(res)
        && res is Ok
        && (first_with_uuid(pre.songs, song_uuid) is Some ==> is_queue_event(ev, post.songs))
        && (first_with_uuid(pre.songs, song_uuid) is None ==> ev is None))
    &&& msg is Current ==> (resp matches SongActorResponse::Current(cur)
        && (match cur {
            Some(song) => pre.songs.len() > 0 && song@ == pre.songs[0],
            None => pre.songs.len() == 0,
        })
        && ev is None)
    &&& msg is GetQueue ==> (resp matches SongActorResponse::Queue(q)
        && q@.map_values(|s: Song| s@) == pre.songs
        && ev is None)
    &&& msg is KeyUp ==> (resp matches SongActorResponse::Key(res)
        && (pre.key >= KEY_BOUND as int ==> (res matches Err(SongCoordinatorError::KeyUpFailed)
            && ev is None))
        && (pre.key < KEY_BOUND as int ==> (res matches Ok(k) && k as int == pre.key + 1
            && is_key_event(ev, post.key))))
    &&& msg is KeyDown ==> (resp matches SongActorResponse::Key(res)
        && (pre.key <= -(KEY_BOUND as int) ==> (res matches Err(
            SongCoordinatorError::KeyDownFailed,
        ) && ev is None))
        && (pre.key > -(KEY_BOUND as int) ==> (res matches Ok(k) && k as int == pre.key - 1
            && is_key_event(ev, post.key))))
    &&& msg is GetKey ==> (resp matches SongActorResponse::Key(res)
        && res matches Ok(k) && k as int == pre.key
        && ev is None)
    &&& msg matches SongActorMessage::UpdateSongStatus { song_uuid, status } ==> (resp
        matches SongActorResponse::StatusUpdated(res)
        && (res is Ok <==> first_with_uuid(pre.songs, song_uuid) is Some)
        && (res is Ok ==> is_queue_event(ev, post.songs))
        && (res is Err ==> ev is None))
}

/// No single message drives the key offset out of [-3, 3]: in particular a
/// raise never passes +3 and a lower never passes -3.
pub proof fn lemma_key_within_bounds(v: SongActorView, msg: SongActorMessage)
    requires
        -(KEY_BOUND as int) <= v.key <= KEY_BOUND as int,
    ensures
        -(KEY_BOUND as int) <= spec_handle(v, msg).key <= KEY_BOUND as int,
{
}

/// No sequence of messages drives the key offset out of [-3, 3].
pub proof fn lemma_replay_key_within_bounds(v: SongActorView, msgs: Seq<SongActorMessage>)
    requires
        -(KEY_BOUND as int) <= v.key <= KEY_BOUND as int,
    ensures
        -(KEY_BOUND as int) <= spec_replay(v, msgs).key <= KEY_BOUND as int,
    decreases msgs.len(),
{
    if msgs.len() > 0 {
        lemma_key_within_bounds(v, msgs[0]);
        lemma_replay_key_within_bounds(spec_handle(v, msgs[0]), msgs.drop_first());
    }
}

} // verus!
