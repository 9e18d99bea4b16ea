//! The playback queue and the decisions of the audio thread.
//!
//! The audio thread owns a [`PlaybackState`]. For each task it receives it
//! calls [`PlaybackState::apply_task`], which updates the queue and says what
//! to do with the audio sink; at the end of each tick it calls
//! [`PlaybackState::advance`], [`PlaybackState::observe`] and, when a reload is
//! due, [`PlaybackState::finish_reload`]. Every decision is stated over
//! [`PlaybackModel`] by [`apply_task_spec`] and its companions.
use vstd::prelude::*;
use crate::music::{Song, Length, length_nanos, clone_songs};

verus! {

/// A song in the playback queue, with its audio once it has been read.
pub struct QueueItem {
    song: Song,
    audio: Option<Vec<u8>>,
}

/// What the playback queue holds, without the audio buffers.
pub struct QueueModel {
    pub songs: Seq<Song>,
    pub position: int,
    pub repeat: bool,
}

/// The whole state of the audio thread.
pub struct PlaybackModel {
    pub queue: QueueModel,
    pub first_song: bool,
    pub now_playing: Option<usize>,
    pub scrobble_applied: bool,
}

/// A snapshot of the queue that the audio thread publishes to the interface.
#[derive(Debug)]
pub struct QueueFramework {
    pub songs: Vec<Song>,
    pub position: usize,
    pub playing: bool,
    pub repeat: bool,
}

/// A request to the scrobbling service.
#[derive(Debug)]
pub enum ScrobbleRequest {
    NowPlaying(Song),
    Scrobble(Song),
}

/// A command to the audio thread. Volume changes go to the audio sink
/// directly and are not part of the queue's logic.
#[derive(Debug)]
pub enum AudioTask {
    TogglePlayback,
    Play,
    Pause,
    SkipForward,
    SkipBackward,
    Push(Song),
    Insert(Song),
    EndThread,
    Move(usize),
    SetQueue(Vec<Song>),
    RemoveSongById(usize),
    RemoveSongByIdx(usize),
    ToggleRepeat,
    ClearQueue,
}

/// What to do with the audio sink after a task.
#[derive(Debug, Clone, Copy, PartialEq, Eq, Structural)]
pub enum SinkCommand {
    /// Leave the sink as it is.
    Keep,
    /// Resume playback.
    Play,
    /// Pause playback.
    Pause,
    /// Drop what is queued in the sink and resume playback.
    Restart,
}

/// The effects of one task besides the change to the queue.
#[derive(Debug, Clone, Copy, PartialEq, Eq, Structural)]
pub struct TaskOutcome {
    /// What to do with the audio sink.
    pub sink: SinkCommand,
    /// Whether to publish a snapshot of the queue now.
    pub publish: bool,
    /// Whether the current song has to be loaded again.
    pub reload: bool,
    /// Whether the automatic advance at the end of this tick must not move on.
    pub hold_position: bool,
    /// Whether the audio thread stops.
    pub end: bool,
}

impl Clone for QueueFramework {
    fn clone(&self) -> (r: Self)
        ensures
            r.songs@ == self.songs@,
            r.position == self.position,
            r.playing == self.playing,
            r.repeat == self.repeat,
    {
        QueueFramework {
            songs: clone_songs(&self.songs),
            position: self.position,
            playing: self.playing,
            repeat: self.repeat,
        }
    }
}

impl Default for QueueFramework {
    /// An empty queue at its start, neither playing nor repeating.
    fn default() -> (r: Self)
        ensures
            r.songs@ == Seq::<Song>::empty(),
            r.position == 0,
            !r.playing,
            !r.repeat,
    {
        QueueFramework { songs: Vec::new(), position: 0, playing: false, repeat: false }
    }
}

impl Clone for ScrobbleRequest {
    fn clone(&self) -> (r: Self)
        ensures
            r == *self,
    {
        match self {
            ScrobbleRequest::NowPlaying(s) => ScrobbleRequest::NowPlaying(s.clone()),
            ScrobbleRequest::Scrobble(s) => ScrobbleRequest::Scrobble(s.clone()),
        }
    }
}

/// An outcome that neither holds the position nor ends the thread.
pub open spec fn plain_outcome(sink: SinkCommand, publish: bool, reload: bool) -> TaskOutcome {
    TaskOutcome { sink, publish, reload, hold_position: false, end: false }
}

/// The outcome of a task that changes nothing.
pub open spec fn no_effect() -> TaskOutcome {
    plain_outcome(SinkCommand::Keep, false, false)
}

/// Whether a song has been downloaded.
pub open spec fn is_downloaded(s: Song) -> bool {
    s.music_path is Some
}

/// The downloaded songs of `s`, in order.
pub open spec fn downloaded_songs(s: Seq<Song>) -> Seq<Song> {
    s.filter(|x: Song| is_downloaded(x))
}

/// Whether every song of `s` has been downloaded.
pub open spec fn all_downloaded(s: Seq<Song>) -> bool {
    forall|i: int| 0 <= i < s.len() ==> #[trigger] is_downloaded(s[i])
}

/// The index of the first song of `s` with database id `id`.
pub open spec fn index_of_id(s: Seq<Song>, id: usize) -> Option<int>
    decreases s.len(),
{
    if s.len() == 0 {
        None
    } else if s[0].id == id {
        Some(0)
    } else {
        match index_of_id(s.drop_first(), id) {
            Some(i) => Some(i + 1),
            None => None,
        }
    }
}

/// The queue without the song at `idx`, keeping the same song current when
/// the removed one comes before it.
pub open spec fn remove_at(q: QueueModel, idx: int) -> QueueModel {
    QueueModel {
        songs: q.songs.remove(idx),
        position: if idx < q.position {
            q.position - 1
        } else {
            q.position
        },
        repeat: q.repeat,
    }
}

/// The queue with a new position.
pub open spec fn at_position(q: QueueModel, p: int) -> QueueModel {
    QueueModel { songs: q.songs, position: p, repeat: q.repeat }
}

/// The state with a new queue.
pub open spec fn with_queue(m: PlaybackModel, q: QueueModel) -> PlaybackModel {
    PlaybackModel {
        queue: q,
        first_song: m.first_song,
        now_playing: m.now_playing,
        scrobble_applied: m.scrobble_applied,
    }
}

/// The effect of one task on the state of the audio thread, given whether the
/// sink is paused when the task arrives.
pub open spec fn apply_task_spec(m: PlaybackModel, task: AudioTask, paused: bool) -> (
    PlaybackModel,
    TaskOutcome,
) {
    let q = m.queue;
    match task {
        AudioTask::Play => (m, plain_outcome(SinkCommand::Play, true, false)),
        AudioTask::Pause => (m, plain_outcome(SinkCommand::Pause, true, false)),
        AudioTask::TogglePlayback => (
            m,
            plain_outcome(
                if paused {
                    SinkCommand::Play
                } else {
                    SinkCommand::Pause
                },
                true,
                false,
            ),
        ),
        AudioTask::SkipForward => (
            with_queue(
                m,
                at_position(
                    q,
                    if q.position < q.songs.len() - 1 {
                        q.position + 1
                    } else {
                        q.position
                    },
                ),
            ),
            plain_outcome(SinkCommand::Keep, false, true),
        ),
        AudioTask::SkipBackward => (
            with_queue(
                m,
                at_position(
                    q,
                    if q.position > 0 {
                        q.position - 1
                    } else {
                        q.position
                    },
                ),
            ),
            plain_outcome(SinkCommand::Keep, false, true),
        ),
        AudioTask::Push(song) => (
            with_queue(
                m,
                QueueModel {
                    songs: if is_downloaded(song) {
                        q.songs.push(song)
                    } else {
                        q.songs
                    },
                    position: q.position,
                    repeat: q.repeat,
                },
            ),
            plain_outcome(SinkCommand::Keep, true, false),
        ),
        AudioTask::Insert(song) => if is_downloaded(song) {
            let songs = q.songs.insert(0, song);
            (
                with_queue(
                    m,
                    QueueModel {
                        songs,
                        position: if songs.len() != 1 {
                            q.position + 1
                        } else {
                            q.position
                        },
                        repeat: q.repeat,
                    },
                ),
                plain_outcome(SinkCommand::Keep, true, false),
            )
        } else {
            (m, plain_outcome(SinkCommand::Keep, true, false))
        },
        AudioTask::Move(target) => if q.position == target || target >= q.songs.len() {
            (m, no_effect())
        } else {
            (with_queue(m, at_position(q, target as int)), plain_outcome(SinkCommand::Keep, false, true))
        },
        AudioTask::SetQueue(songs) => (
            with_queue(
                m,
                QueueModel { songs: downloaded_songs(songs@), position: 0, repeat: q.repeat },
            ),
            TaskOutcome {
                sink: SinkCommand::Restart,
                publish: false,
                reload: true,
                hold_position: true,
                end: false,
            },
        ),
        AudioTask::RemoveSongById(id) => match index_of_id(q.songs, id) {
            Some(i) => (with_queue(m, remove_at(q, i)), plain_outcome(SinkCommand::Keep, false, true)),
            None => (m, no_effect()),
        },
        AudioTask::RemoveSongByIdx(idx) => if idx >= q.songs.len() {
            (m, no_effect())
        } else {
            (with_queue(m, remove_at(q, idx as int)), plain_outcome(SinkCommand::Keep, false, true))
        },
        AudioTask::ToggleRepeat => (
            with_queue(
                m,
                QueueModel { songs: q.songs, position: q.position, repeat: !q.repeat },
            ),
            plain_outcome(SinkCommand::Keep, true, false),
        ),
        AudioTask::ClearQueue => (
            PlaybackModel {
                queue: QueueModel { songs: Seq::empty(), position: 0, repeat: q.repeat },
                first_song: true,
                now_playing: m.now_playing,
                scrobble_applied: m.scrobble_applied,
            },
            plain_outcome(SinkCommand::Keep, false, true),
        ),
        AudioTask::EndThread => (
            m,
            TaskOutcome {
                sink: SinkCommand::Keep,
                publish: false,
                reload: false,
                hold_position: false,
                end: true,
            },
        ),
    }
}

/// Whether a task can be applied without an arithmetic overflow: skipping
/// forward needs a song in the queue, and inserting a downloaded song needs
/// room to move the position on.
pub open spec fn task_allowed(m: PlaybackModel, task: AudioTask) -> bool {
    match task {
        AudioTask::SkipForward => m.queue.songs.len() > 0,
        AudioTask::Insert(song) => is_downloaded(song) ==> m.queue.position < usize::MAX,
        _ => true,
    }
}

/// The automatic advance at the end of a tick, given whether the sink has
/// run out of audio and whether a task of this tick held the position.
/// Returns the new state and whether the current song must be loaded.
pub open spec fn advance_spec(m: PlaybackModel, sink_empty: bool, hold: bool) -> (
    PlaybackModel,
    bool,
) {
    let q = m.queue;
    if sink_empty && q.songs.len() > 0 {
        if q.position < q.songs.len() - 1 && !q.repeat && !hold {
            if m.first_song {
                (
                    PlaybackModel {
                        queue: q,
                        first_song: false,
                        now_playing: m.now_playing,
                        scrobble_applied: m.scrobble_applied,
                    },
                    true,
                )
            } else {
                (with_queue(m, at_position(q, q.position + 1)), true)
            }
        } else if q.position == q.songs.len() - 1 && !q.repeat {
            (with_queue(m, at_position(q, 0)), true)
        } else {
            (m, true)
        }
    } else {
        (m, false)
    }
}

/// The check after the advance: whether the current song differs from the
/// one that was loaded, and the scrobble that is due once playback has passed
/// the scrobbling threshold.
pub open spec fn observe_spec(m: PlaybackModel, past_threshold: bool) -> (
    PlaybackModel,
    bool,
    Option<ScrobbleRequest>,
) {
    let q = m.queue;
    if 0 <= q.position < q.songs.len() {
        let song = q.songs[q.position];
        let changed = match m.now_playing {
            Some(id) => song.id != id,
            None => false,
        };
        if !m.scrobble_applied && past_threshold {
            (
                PlaybackModel {
                    queue: q,
                    first_song: m.first_song,
                    now_playing: m.now_playing,
                    scrobble_applied: true,
                },
                changed,
                Some(ScrobbleRequest::Scrobble(song)),
            )
        } else {
            (m, changed, None)
        }
    } else {
        (m, false, None)
    }
}

/// Whether playback, `position` nanoseconds into a song of `length`
/// nanoseconds, has passed the point at which the song is scrobbled: a
/// fifth of its length. A song of length zero is past it once playback has
/// begun.
pub open spec fn scrobble_due(position: nat, length: nat) -> bool {
    position * 5 > length
}

/// The end of a tick, after the tasks of the tick were applied: the
/// automatic advance, then the check of the current song at the sink's
/// position. `task_reload` and `hold` tell whether a task of the tick asked
/// for a reload or to keep the position. Returns the new state, whether the
/// current song must be loaded (a task asked for it, the advance did, or the
/// current song is not the one loaded), and the scrobble that is due.
pub open spec fn end_tick_spec(
    m: PlaybackModel,
    task_reload: bool,
    hold: bool,
    sink_empty: bool,
    position: nat,
) -> (PlaybackModel, bool, Option<ScrobbleRequest>) {
    let (m1, advanced) = advance_spec(m, sink_empty, hold);
    let q = m1.queue;
    let due = if 0 <= q.position < q.songs.len() {
        scrobble_due(position, length_nanos(q.songs[q.position].duration))
    } else {
        false
    };
    let (m2, changed, scrobble) = observe_spec(m1, due);
    (m2, task_reload || advanced || changed, scrobble)
}

/// The state after a reload: the id of the song that started playing, if
/// one did; otherwise the queue goes back to its start.
pub open spec fn finish_reload_spec(m: PlaybackModel, started: bool) -> PlaybackModel {
    let q = m.queue;
    if started && 0 <= q.position < q.songs.len() {
        PlaybackModel {
            queue: q,
            first_song: m.first_song,
            now_playing: Some(q.songs[q.position].id),
            scrobble_applied: false,
        }
    } else {
        PlaybackModel {
            queue: at_position(q, 0),
            first_song: m.first_song,
            now_playing: None,
            scrobble_applied: false,
        }
    }
}

impl QueueItem {
    /// The song of this item.
    pub closed spec fn item_song(self) -> Song {
        self.song
    }

    /// Whether this item's audio has been read.
    pub closed spec fn audio_loaded(self) -> bool {
        self.audio is Some
    }

    /// The bytes of the audio read for this item, if any.
    pub closed spec fn item_audio(self) -> Option<Seq<u8>> {
        match self.audio {
            Some(a) => Some(a@),
            None => None,
        }
    }

    /// An item for a downloaded song; `None` for a song that has not been
    /// downloaded.
    pub fn new(song: Song) -> (r: Option<QueueItem>)
        ensures
            r is Some <==> is_downloaded(song),
            r matches Some(item) ==> item.item_song() == song && !item.audio_loaded() && item.item_audio() is None,
    {
        if song.music_path.is_some() {
            Some(QueueItem { song, audio: None })
        } else {
            None
        }
    }

    /// The song of this item.
    pub fn song(&self) -> (r: &Song)
        ensures
            *r == self.item_song(),
    {
        &self.song
    }

    /// The audio read for this item, if any.
    pub fn audio(&self) -> (r: Option<&Vec<u8>>)
        ensures
            r is Some <==> self.audio_loaded(),
            match r {
                Some(a) => self.item_audio() == Some(a@),
                None => self.item_audio() is None,
            },
    {
        match &self.audio {
            Some(a) => Some(a),
            None => None,
        }
    }

    /// Keeps the audio read from the song's file; a failed read leaves the
    /// item as it was.
    pub fn load(&mut self, data: Option<Vec<u8>>)
        ensures
            final(self).item_song() == old(self).item_song(),
            final(self).audio_loaded() == (old(self).audio_loaded() || data is Some),
            final(self).item_audio() == match data {
                Some(d) => Some(d@),
                None => old(self).item_audio(),
            },
    {
        match data {
            Some(d) => {
                self.audio = Some(d);
            },
            None => {},
        }
    }
}

/// The songs of the queue, with their audio.
pub struct Queue {
    songs: Vec<QueueItem>,
    position: usize,
    repeat: bool,
}

impl View for Queue {
    type V = QueueModel;

    closed spec fn view(&self) -> QueueModel {
        QueueModel {
            songs: self.songs@.map_values(|i: QueueItem| i.song),
            position: self.position as int,
            repeat: self.repeat,
        }
    }
}

impl Queue {
    /// An empty queue, at its start, not repeating.
    pub fn new() -> (q: Queue)
        ensures
            q@.songs == Seq::<Song>::empty(),
            q@.position == 0,
            !q@.repeat,
    {
        let q = Queue { songs: Vec::new(), position: 0, repeat: false };
        assert(q@.songs =~= Seq::<Song>::empty());
        q
    }

    closed spec fn items_downloaded(&self) -> bool {
        forall|i: int| 0 <= i < self.songs@.len() ==> #[trigger] is_downloaded(self.songs@[i].song)
    }
}

/// The state of the audio thread between two ticks.
pub struct PlaybackState {
    queue: Queue,
    now_playing: Option<usize>,
    scrobble_applied: bool,
    first_song: bool,
}

impl View for PlaybackState {
    type V = PlaybackModel;

    closed spec fn view(&self) -> PlaybackModel {
        PlaybackModel {
            queue: self.queue@,
            first_song: self.first_song,
            now_playing: self.now_playing,
            scrobble_applied: self.scrobble_applied,
        }
    }
}

impl PlaybackState {
    #[verifier::type_invariant]
    closed spec fn inv(self) -> bool {
        self.queue.items_downloaded()
    }

    /// The state at the start of the audio thread: an empty queue, nothing
    /// playing, waiting for the first song.
    pub fn new() -> (s: PlaybackState)
        ensures
            s@.queue.songs == Seq::<Song>::empty(),
            s@.queue.position == 0,
            !s@.queue.repeat,
            s@.first_song,
            s@.now_playing is None,
            !s@.scrobble_applied,
            all_downloaded(s@.queue.songs),
    {
        let queue = Queue::new();
        assert(queue.songs@.len() == queue@.songs.len());
        PlaybackState {
            queue,
            now_playing: None,
            scrobble_applied: false,
            first_song: true,
        }
    }

    /// The index of the first queued song with database id `id`.
    fn find_song(&self, id: usize) -> (r: Option<usize>)
        ensures
            index_of_id(self@.queue.songs, id) == match r {
                Some(i) => Some(i as int),
                None => None::<int>,
            },
            r matches Some(i) ==> i < self@.queue.songs.len(),
    {
        let mut i: usize = 0;
        while i < self.queue.songs.len()
            invariant
                i <= self.queue.songs.len(),
                forall|j: int| 0 <= j < i ==> (#[trigger] self@.queue.songs[j]).id != id,
            decreases self.queue.songs.len() - i,
        {
            assert(self@.queue.songs[i as int] == self.queue.songs@[i as int].song);
            if self.queue.songs[i].song.id == id {
                proof { lemma_index_of_id_first(self@.queue.songs, id, i as int); }
                return Some(i);
            }
            i = i + 1;
        }
        proof { lemma_index_of_id_none(self@.queue.songs, id); }
        None
    }

    /// Removes the song at `idx`, keeping the same song current when the
    /// removed one comes before it.
    fn remove_index(&mut self, idx: usize)
        requires
            idx < old(self)@.queue.songs.len(),
        ensures
            final(self)@ == with_queue(old(self)@, remove_at(old(self)@.queue, idx as int)),
            all_downloaded(final(self)@.queue.songs),
    {
        proof { use_type_invariant(&*self); }
        if idx < self.queue.position {
            self.queue.position = self.queue.position - 1;
        }
        let ghost before = self.queue.songs@;
        let mut songs: Vec<QueueItem> = Vec::new();
        std::mem::swap(&mut songs, &mut self.queue.songs);
        let _removed = songs.remove(idx);
        assert(forall|k: int| 0 <= k < songs@.len() ==> #[trigger] songs@[k] == before[if k < idx { k } else { k + 1 }]);
        self.queue.songs = songs;
        proof {
            assert(self.queue.songs@.map_values(|i: QueueItem| i.song) =~= before.map_values(
                |i: QueueItem| i.song,
            ).remove(idx as int));
        }
        proof {
            use_type_invariant(&*self);
            self.lemma_downloaded();
        }
    }

    /// Every queued song is downloaded when the type invariant holds.
    proof fn lemma_downloaded(self)
        requires
            self.inv(),
        ensures
            all_downloaded(self@.queue.songs),
    {
        assert forall|i: int| 0 <= i < self@.queue.songs.len() implies #[trigger] is_downloaded(
            self@.queue.songs[i],
        ) by {
            assert(self@.queue.songs[i] == self.queue.songs@[i].song);
        }
    }

    /// The items for the downloaded songs of `songs`, in order.
    fn downloaded_items(songs: &Vec<Song>) -> (r: Vec<QueueItem>)
        ensures
            r@.map_values(|i: QueueItem| i.song) == downloaded_songs(songs@),
            forall|i: int| 0 <= i < r@.len() ==> #[trigger] is_downloaded(r@[i].song),
    {
        let mut items: Vec<QueueItem> = Vec::new();
        let mut i: usize = 0;
        while i < songs.len()
            invariant
                i <= songs.len(),
                items@.map_values(|i: QueueItem| i.song) == downloaded_songs(songs@.take(i as int)),
                forall|k: int| 0 <= k < items@.len() ==> #[trigger] is_downloaded(items@[k].song),
            decreases songs.len() - i,
        {
            let ghost before = items@;
            let song = songs[i].clone();
            let item = QueueItem::new(song);
            proof {
                songs@.take(i as int).lemma_filter_push(songs@[i as int], |x: Song| is_downloaded(x));
                assert(songs@.take(i + 1) =~= songs@.take(i as int).push(songs@[i as int]));
            }
            match item {
                Some(item) => {
                    items.push(item);
                    assert(items@.map_values(|i: QueueItem| i.song) =~= before.map_values(
                        |i: QueueItem| i.song,
                    ).push(songs@[i as int]));
                },
                None => {},
            }
            i = i + 1;
        }
        assert(songs@.take(songs.len() as int) =~= songs@);
        items
    }

    fn skip_forward(&mut self) -> (out: TaskOutcome)
        requires
            old(self)@.queue.songs.len() > 0,
        ensures
            (final(self)@, out) == apply_task_spec(old(self)@, AudioTask::SkipForward, false),
            all_downloaded(final(self)@.queue.songs),
    {
        proof { use_type_invariant(&*self); }
        assert(self@.queue.songs.len() == self.queue.songs@.len());
        if self.queue.position < self.queue.songs.len() - 1 {
            self.queue.position = self.queue.position + 1;
        }
        proof {
            use_type_invariant(&*self);
            self.lemma_downloaded();
        }
        TaskOutcome { sink: SinkCommand::Keep, publish: false, reload: true, hold_position: false, end: false }
    }

    fn skip_backward(&mut self) -> (out: TaskOutcome)
        ensures
            (final(self)@, out) == apply_task_spec(old(self)@, AudioTask::SkipBackward, false),
            all_downloaded(final(self)@.queue.songs),
    {
        proof { use_type_invariant(&*self); }
        if self.queue.position > 0 {
            self.queue.position = self.queue.position - 1;
        }
        proof {
            use_type_invariant(&*self);
            self.lemma_downloaded();
        }
        TaskOutcome { sink: SinkCommand::Keep, publish: false, reload: true, hold_position: false, end: false }
    }

    fn push_song(&mut self, song: Song) -> (out: TaskOutcome)
        ensures
            (final(self)@, out) == apply_task_spec(old(self)@, AudioTask::Push(song), false),
            all_downloaded(final(self)@.queue.songs),
    {
        proof { use_type_invariant(&*self); }
        let ghost s = song;
        match QueueItem::new(song) {
            Some(item) => {
                let ghost before = self.queue.songs@;
                let mut songs: Vec<QueueItem> = Vec::new();
                std::mem::swap(&mut songs, &mut self.queue.songs);
                songs.push(item);
                assert(forall|k: int| 0 <= k < before.len() ==> #[trigger] songs@[k] == before[k]);
                self.queue.songs = songs;
                assert(self.queue.songs@.map_values(|i: QueueItem| i.song) =~= before.map_values(
                    |i: QueueItem| i.song,
                ).push(s));
            },
            None => {},
        }
        proof {
            use_type_invariant(&*self);
            self.lemma_downloaded();
        }
        TaskOutcome { sink: SinkCommand::Keep, publish: true, reload: false, hold_position: false, end: false }
    }

    fn insert_song(&mut self, song: Song) -> (out: TaskOutcome)
        requires
            is_downloaded(song) ==> old(self)@.queue.position < usize::MAX,
        ensures
            (final(self)@, out) == apply_task_spec(old(self)@, AudioTask::Insert(song), false),
            all_downloaded(final(self)@.queue.songs),
    {
        proof { use_type_invariant(&*self); }
        let ghost s = song;
        match QueueItem::new(song) {
            Some(item) => {
                let ghost before = self.queue.songs@;
                let mut songs: Vec<QueueItem> = Vec::new();
                std::mem::swap(&mut songs, &mut self.queue.songs);
                songs.insert(0, item);
                assert(forall|k: int| 1 <= k < songs@.len() ==> #[trigger] songs@[k] == before[k - 1]);
                self.queue.songs = songs;
                assert(self.queue.songs@.map_values(|i: QueueItem| i.song) =~= before.map_values(
                    |i: QueueItem| i.song,
                ).insert(0, s));
                assert(self@.queue.songs.len() == self.queue.songs@.len());
                if self.queue.songs.len() != 1 {
                    self.queue.position = self.queue.position + 1;
                }
            },
            None => {},
        }
        proof {
            use_type_invariant(&*self);
            self.lemma_downloaded();
        }
        TaskOutcome { sink: SinkCommand::Keep, publish: true, reload: false, hold_position: false, end: false }
    }

    fn move_to(&mut self, target: usize) -> (out: TaskOutcome)
        ensures
            (final(self)@, out) == apply_task_spec(old(self)@, AudioTask::Move(target), false),
            all_downloaded(final(self)@.queue.songs),
    {
        proof { use_type_invariant(&*self); }
        assert(self@.queue.songs.len() == self.queue.songs@.len());
        let out = if self.queue.position == target || target >= self.queue.songs.len() {
            TaskOutcome { sink: SinkCommand::Keep, publish: false, reload: false, hold_position: false, end: false }
        } else {
            self.queue.position = target;
            TaskOutcome { sink: SinkCommand::Keep, publish: false, reload: true, hold_position: false, end: false }
        };
        proof {
            use_type_invariant(&*self);
            self.lemma_downloaded();
        }
        out
    }

    fn set_queue(&mut self, songs: Vec<Song>) -> (out: TaskOutcome)
        ensures
            (final(self)@, out) == apply_task_spec(old(self)@, AudioTask::SetQueue(songs), false),
            all_downloaded(final(self)@.queue.songs),
    {
        proof { use_type_invariant(&*self); }
        let items = Self::downloaded_items(&songs);
        self.queue.position = 0;
        self.queue.songs = items;
        proof {
            use_type_invariant(&*self);
            self.lemma_downloaded();
        }
        TaskOutcome { sink: SinkCommand::Restart, publish: false, reload: true, hold_position: true, end: false }
    }

    fn remove_by_id(&mut self, id: usize) -> (out: TaskOutcome)
        ensures
            (final(self)@, out) == apply_task_spec(old(self)@, AudioTask::RemoveSongById(id), false),
            all_downloaded(final(self)@.queue.songs),
    {
        match self.find_song(id) {
            Some(idx) => {
                self.remove_index(idx);
                TaskOutcome { sink: SinkCommand::Keep, publish: false, reload: true, hold_position: false, end: false }
            },
            None => {
                proof {
                    use_type_invariant(&*self);
                    self.lemma_downloaded();
                }
                TaskOutcome { sink: SinkCommand::Keep, publish: false, reload: false, hold_position: false, end: false }
            },
        }
    }

    fn remove_by_index(&mut self, idx: usize) -> (out: TaskOutcome)
        ensures
            (final(self)@, out) == apply_task_spec(old(self)@, AudioTask::RemoveSongByIdx(idx), false),
            all_downloaded(final(self)@.queue.songs),
    {
        proof { use_type_invariant(&*self); }
        assert(self@.queue.songs.len() == self.queue.songs@.len());
        if idx >= self.queue.songs.len() {
            proof {
                use_type_invariant(&*self);
                self.lemma_downloaded();
            }
            TaskOutcome { sink: SinkCommand::Keep, publish: false, reload: false, hold_position: false, end: false }
        } else {
            self.remove_index(idx);
            TaskOutcome { sink: SinkCommand::Keep, publish: false, reload: true, hold_position: false, end: false }
        }
    }

    fn toggle_repeat(&mut self) -> (out: TaskOutcome)
        ensures
            (final(self)@, out) == apply_task_spec(old(self)@, AudioTask::ToggleRepeat, false),
            all_downloaded(final(self)@.queue.songs),
    {
        proof { use_type_invariant(&*self); }
        self.queue.repeat = !self.queue.repeat;
        proof {
            use_type_invariant(&*self);
            self.lemma_downloaded();
        }
        TaskOutcome { sink: SinkCommand::Keep, publish: true, reload: false, hold_position: false, end: false }
    }

    fn clear_queue(&mut self) -> (out: TaskOutcome)
        ensures
            (final(self)@, out) == apply_task_spec(old(self)@, AudioTask::ClearQueue, false),
            all_downloaded(final(self)@.queue.songs),
    {
        self.queue.songs = Vec::new();
        self.queue.position = 0;
        self.first_song = true;
        assert(self@.queue.songs =~= Seq::<Song>::empty());
        proof {
            use_type_invariant(&*self);
            self.lemma_downloaded();
        }
        TaskOutcome { sink: SinkCommand::Keep, publish: false, reload: true, hold_position: false, end: false }
    }

    /// Applies one task to the queue. `paused` tells whether the sink is
    /// paused when the task arrives.
    pub fn apply_task(&mut self, task: AudioTask, paused: bool) -> (out: TaskOutcome)
        requires
            task_allowed(old(self)@, task),
        ensures
            (final(self)@, out) == apply_task_spec(old(self)@, task, paused),
            all_downloaded(final(self)@.queue.songs),
    {
        proof {
            use_type_invariant(&*self);
            self.lemma_downloaded();
        }
        match task {
            AudioTask::Play => TaskOutcome {
                sink: SinkCommand::Play,
                publish: true,
                reload: false,
                hold_position: false,
                end: false,
            },
            AudioTask::Pause => TaskOutcome {
                sink: SinkCommand::Pause,
                publish: true,
                reload: false,
                hold_position: false,
                end: false,
            },
            AudioTask::TogglePlayback => TaskOutcome {
                sink: if paused {
                    SinkCommand::Play
                } else {
                    SinkCommand::Pause
                },
                publish: true,
                reload: false,
                hold_position: false,
                end: false,
            },
            AudioTask::SkipForward => self.skip_forward(),
            AudioTask::SkipBackward => self.skip_backward(),
            AudioTask::Push(song) => self.push_song(song),
            AudioTask::Insert(song) => self.insert_song(song),
            AudioTask::Move(target) => self.move_to(target),
            AudioTask::SetQueue(songs) => self.set_queue(songs),
            AudioTask::RemoveSongById(id) => self.remove_by_id(id),
            AudioTask::RemoveSongByIdx(idx) => self.remove_by_index(idx),
            AudioTask::ToggleRepeat => self.toggle_repeat(),
            AudioTask::ClearQueue => self.clear_queue(),
            AudioTask::EndThread => TaskOutcome {
                sink: SinkCommand::Keep,
                publish: false,
                reload: false,
                hold_position: false,
                end: true,
            },
        }
    }

    /// The automatic advance at the end of a tick. `sink_empty` tells whether
    /// the sink has run out of audio and `hold` whether a task of this tick
    /// asked to keep the position. Returns whether the current song must be
    /// loaded.
    pub fn advance(&mut self, sink_empty: bool, hold: bool) -> (reload: bool)
        ensures
            (final(self)@, reload) == advance_spec(old(self)@, sink_empty, hold),
            all_downloaded(final(self)@.queue.songs),
    {
        proof { use_type_invariant(&*self); }
        assert(self@.queue.songs.len() == self.queue.songs@.len());
        let len = self.queue.songs.len();
        let mut reload = false;
        if sink_empty && len > 0 {
            if self.queue.position < len - 1 && !self.queue.repeat && !hold {
                if self.first_song {
                    self.first_song = false;
                } else {
                    self.queue.position = self.queue.position + 1;
                }
            } else if self.queue.position == len - 1 && !self.queue.repeat {
                self.queue.position = 0;
            }
            reload = true;
        }
        proof {
            use_type_invariant(&*self);
            self.lemma_downloaded();
        }
        reload
    }

    /// The song at the current position, if there is one.
    pub fn current_song(&self) -> (r: Option<&Song>)
        ensures
            match r {
                Some(s) => 0 <= self@.queue.position < self@.queue.songs.len() && *s
                    == self@.queue.songs[self@.queue.position],
                None => !(0 <= self@.queue.position < self@.queue.songs.len()),
            },
    {
        assert(self@.queue.songs.len() == self.queue.songs@.len());
        if self.queue.position < self.queue.songs.len() {
            Some(&self.queue.songs[self.queue.position].song)
        } else {
            None
        }
    }

    /// The check after the advance. `past_threshold` tells whether playback
    /// of the current song has passed the point at which it is scrobbled.
    /// Returns whether the current song differs from the one that was loaded,
    /// and the scrobble that is due.
    pub fn observe(&mut self, past_threshold: bool) -> (r: (bool, Option<ScrobbleRequest>))
        ensures
            (final(self)@, r.0, r.1) == observe_spec(old(self)@, past_threshold),
            all_downloaded(final(self)@.queue.songs),
    {
        proof { use_type_invariant(&*self); }
        assert(self@.queue.songs.len() == self.queue.songs@.len());
        let mut changed = false;
        let mut scrobble: Option<ScrobbleRequest> = None;
        if self.queue.position < self.queue.songs.len() {
            let song = &self.queue.songs[self.queue.position].song;
            match self.now_playing {
                Some(id) => {
                    changed = song.id != id;
                },
                None => {},
            }
            if !self.scrobble_applied && past_threshold {
                scrobble = Some(ScrobbleRequest::Scrobble(song.clone()));
                self.scrobble_applied = true;
            }
        }
        proof {
            use_type_invariant(&*self);
            self.lemma_downloaded();
        }
        (changed, scrobble)
    }

    /// Ends a tick: the automatic advance, then the check of the current
    /// song with the sink at `position`. Returns whether the
    /// current song must be loaded and the scrobble that is due.
    pub fn end_tick(&mut self, task_reload: bool, hold: bool, sink_empty: bool, position: Length) -> (r: (
        bool,
        Option<ScrobbleRequest>,
    ))
        ensures
            (final(self)@, r.0, r.1) == end_tick_spec(old(self)@, task_reload, hold, sink_empty, length_nanos(position)),
            all_downloaded(final(self)@.queue.songs),
    {
        let advanced = self.advance(sink_empty, hold);
        let due = match self.current_song() {
            Some(song) => position.total_nanos() * 5 > song.duration.total_nanos(),
            None => false,
        };
        let (changed, scrobble) = self.observe(due);
        (task_reload || advanced || changed, scrobble)
    }

    /// Reads the current item's audio: `data` is what reading the song's file
    /// gave. Returns the current item afterwards, if there is one.
    pub fn load_current(&mut self, data: Option<Vec<u8>>) -> (r: Option<&QueueItem>)
        ensures
            final(self)@ == old(self)@,
            match r {
                Some(item) => 0 <= old(self)@.queue.position < old(self)@.queue.songs.len()
                    && item.item_song() == old(self)@.queue.songs[old(self)@.queue.position]
                    && is_downloaded(item.item_song()) && (data matches Some(d) ==> item.item_audio()
                    == Some(d@)),
                None => !(0 <= old(self)@.queue.position < old(self)@.queue.songs.len()),
            },
    {
        proof { use_type_invariant(&*self); }
        assert(self@.queue.songs.len() == self.queue.songs@.len());
        if self.queue.position < self.queue.songs.len() {
            let pos = self.queue.position;
            let ghost before = self.queue.songs@;
            let mut songs: Vec<QueueItem> = Vec::new();
            std::mem::swap(&mut songs, &mut self.queue.songs);
            let mut item = songs.remove(pos);
            item.load(data);
            songs.insert(pos, item);
            assert(songs@.map_values(|i: QueueItem| i.song) =~= before.map_values(|i: QueueItem| i.song));
            assert(forall|k: int| 0 <= k < songs@.len() ==> #[trigger] songs@[k].song == before[k].song);
            self.queue.songs = songs;
            Some(&self.queue.songs[pos])
        } else {
            None
        }
    }

    /// Records the result of loading the current song: `started` tells whether
    /// its audio was decoded and started. Returns whether the sink has to be
    /// cleared, which is when nothing started.
    pub fn finish_reload(&mut self, started: bool) -> (clear_sink: bool)
        ensures
            final(self)@ == finish_reload_spec(old(self)@, started),
            clear_sink == !(started && 0 <= old(self)@.queue.position < old(self)@.queue.songs.len()),
            all_downloaded(final(self)@.queue.songs),
    {
        proof { use_type_invariant(&*self); }
        assert(self@.queue.songs.len() == self.queue.songs@.len());
        self.scrobble_applied = false;
        if started && self.queue.position < self.queue.songs.len() {
            self.now_playing = Some(self.queue.songs[self.queue.position].song.id);
            proof {
                use_type_invariant(&*self);
                self.lemma_downloaded();
            }
            false
        } else {
            self.now_playing = None;
            self.queue.position = 0;
            proof {
                use_type_invariant(&*self);
                self.lemma_downloaded();
            }
            true
        }
    }

    /// The snapshot of the queue that the interface shows; `playing` tells
    /// whether the sink is playing.
    pub fn snapshot(&self, playing: bool) -> (r: QueueFramework)
        ensures
            r.songs@ == self@.queue.songs,
            r.position == self@.queue.position,
            r.playing == playing,
            r.repeat == self@.queue.repeat,
    {
        let mut songs: Vec<Song> = Vec::new();
        let mut i: usize = 0;
        while i < self.queue.songs.len()
            invariant
                i <= self.queue.songs.len(),
                songs@ == self@.queue.songs.take(i as int),
            decreases self.queue.songs.len() - i,
        {
            songs.push(self.queue.songs[i].song.clone());
            assert(self@.queue.songs.take(i + 1) =~= self@.queue.songs.take(i as int).push(
                self.queue.songs@[i as int].song,
            ));
            i = i + 1;
        }
        assert(self@.queue.songs.take(self.queue.songs.len() as int) =~= self@.queue.songs);
        QueueFramework {
            songs,
            position: self.queue.position,
            playing,
            repeat: self.queue.repeat,
        }
    }

    /// The number of songs in the queue.
    pub fn len(&self) -> (r: usize)
        ensures
            r == self@.queue.songs.len(),
    {
        assert(self@.queue.songs.len() == self.queue.songs@.len());
        self.queue.songs.len()
    }

    /// The current position in the queue.
    pub fn position(&self) -> (r: usize)
        ensures
            r == self@.queue.position,
    {
        self.queue.position
    }
}

/// The first index of `id` is `i` when no earlier song has that id.
pub proof fn lemma_index_of_id_first(s: Seq<Song>, id: usize, i: int)
    requires
        0 <= i < s.len(),
        s[i].id == id,
        forall|j: int| 0 <= j < i ==> (#[trigger] s[j]).id != id,
    ensures
        index_of_id(s, id) == Some(i),
    decreases i,
{
    if i > 0 {
        let t = s.drop_first();
        assert forall|j: int| 0 <= j < i - 1 implies (#[trigger] t[j]).id != id by {
            assert(t[j] == s[j + 1]);
        }
        lemma_index_of_id_first(t, id, i - 1);
        assert(s[0].id != id);
    }
}

/// No index is found when no song has the id.
pub proof fn lemma_index_of_id_none(s: Seq<Song>, id: usize)
    requires
        forall|j: int| 0 <= j < s.len() ==> (#[trigger] s[j]).id != id,
    ensures
        index_of_id(s, id) is None,
    decreases s.len(),
{
    if s.len() > 0 {
        let t = s.drop_first();
        assert forall|j: int| 0 <= j < t.len() implies (#[trigger] t[j]).id != id by {
            assert(t[j] == s[j + 1]);
        }
        lemma_index_of_id_none(t, id);
        assert(s[0].id != id);
    }
}

} // verus!

verus! {

/// Toggling repeat twice gives back the state it started from.
pub proof fn law_toggle_repeat_twice(m: PlaybackModel, paused: bool)
    ensures
        apply_task_spec(apply_task_spec(m, AudioTask::ToggleRepeat, paused).0, AudioTask::ToggleRepeat, paused).0 == m,
{
}

/// Removing a song other than the current one, by its index, keeps the same
/// song current.
pub proof fn law_remove_by_index_keeps_current(m: PlaybackModel, idx: usize, paused: bool)
    requires
        0 <= m.queue.position < m.queue.songs.len(),
        idx < m.queue.songs.len(),
        idx != m.queue.position,
    ensures
        ({
            let q2 = apply_task_spec(m, AudioTask::RemoveSongByIdx(idx), paused).0.queue;
            &&& 0 <= q2.position < q2.songs.len()
            &&& q2.songs[q2.position] == m.queue.songs[m.queue.position]
            &&& q2.songs.len() == m.queue.songs.len() - 1
        }),
{
}

/// Removing a song by its database id takes out the first song with that id
/// and, when that song is not the current one, keeps the same song current.
pub proof fn law_remove_by_id_keeps_current(m: PlaybackModel, id: usize, paused: bool)
    requires
        0 <= m.queue.position < m.queue.songs.len(),
        m.queue.songs[m.queue.position].id != id,
    ensures
        ({
            let q2 = apply_task_spec(m, AudioTask::RemoveSongById(id), paused).0.queue;
            &&& 0 <= q2.position < q2.songs.len()
            &&& q2.songs[q2.position] == m.queue.songs[m.queue.position]
        }),
{
    match index_of_id(m.queue.songs, id) {
        Some(i) => {
            lemma_index_of_id_found(m.queue.songs, id);
        },
        None => {},
    }
}

/// Pushing a downloaded song appends it and keeps the position; pushing a
/// song that has not been downloaded leaves the queue as it was.
pub proof fn law_push_appends(m: PlaybackModel, song: Song, paused: bool)
    ensures
        ({
            let q2 = apply_task_spec(m, AudioTask::Push(song), paused).0.queue;
            &&& q2.position == m.queue.position
            &&& q2.songs == if is_downloaded(song) {
                m.queue.songs.push(song)
            } else {
                m.queue.songs
            }
        }),
{
}

/// Inserting a song into a queue that has a current song keeps that song
/// current: a downloaded song goes to the front and the position moves on
/// past it; a song that has not been downloaded leaves the queue as it was.
pub proof fn law_insert_keeps_current(m: PlaybackModel, song: Song, paused: bool)
    requires
        0 <= m.queue.position < m.queue.songs.len(),
    ensures
        ({
            let q2 = apply_task_spec(m, AudioTask::Insert(song), paused).0.queue;
            &&& is_downloaded(song) ==> q2.songs[0] == song
            &&& !is_downloaded(song) ==> q2 == m.queue
            &&& q2.songs[q2.position] == m.queue.songs[m.queue.position]
        }),
{
}

/// Moving to an index inside the queue makes that song current.
pub proof fn law_move_selects(m: PlaybackModel, target: usize, paused: bool)
    requires
        target < m.queue.songs.len(),
    ensures
        apply_task_spec(m, AudioTask::Move(target), paused).0.queue.position == target,
        apply_task_spec(m, AudioTask::Move(target), paused).0.queue.songs == m.queue.songs,
{
}

/// Setting the queue keeps the downloaded songs, in order, and starts from
/// the first of them.
pub proof fn law_set_queue(m: PlaybackModel, songs: Vec<Song>, paused: bool)
    ensures
        ({
            let (m2, out) = apply_task_spec(m, AudioTask::SetQueue(songs), paused);
            &&& m2.queue.songs == downloaded_songs(songs@)
            &&& all_downloaded(m2.queue.songs)
            &&& m2.queue.position == 0
            &&& out.hold_position
            &&& out.reload
        }),
{
    lemma_downloaded_songs(songs@);
}

/// Clearing the queue empties it and waits for a new first song.
pub proof fn law_clear(m: PlaybackModel, paused: bool)
    ensures
        ({
            let m2 = apply_task_spec(m, AudioTask::ClearQueue, paused).0;
            &&& m2.queue.songs.len() == 0
            &&& m2.queue.position == 0
            &&& m2.first_song
        }),
{
}

/// No task puts a song that has not been downloaded into the queue.
pub proof fn law_tasks_keep_downloaded(m: PlaybackModel, task: AudioTask, paused: bool)
    requires
        all_downloaded(m.queue.songs),
    ensures
        all_downloaded(apply_task_spec(m, task, paused).0.queue.songs),
{
    let m2 = apply_task_spec(m, task, paused).0;
    match task {
        AudioTask::SetQueue(songs) => {
            lemma_downloaded_songs(songs@);
        },
        AudioTask::Insert(song) => {
            if is_downloaded(song) {
                assert forall|i: int| 0 <= i < m2.queue.songs.len() implies #[trigger] is_downloaded(
                    m2.queue.songs[i],
                ) by {
                    if i > 0 {
                        assert(m2.queue.songs[i] == m.queue.songs[i - 1]);
                    }
                }
            }
        },
        AudioTask::Push(song) => {
            if is_downloaded(song) {
                assert forall|i: int| 0 <= i < m2.queue.songs.len() implies #[trigger] is_downloaded(
                    m2.queue.songs[i],
                ) by {
                    if i < m.queue.songs.len() {
                        assert(m2.queue.songs[i] == m.queue.songs[i]);
                    }
                }
            }
        },
        AudioTask::RemoveSongById(id) => {
            match index_of_id(m.queue.songs, id) {
                Some(k) => {
                    lemma_index_of_id_found(m.queue.songs, id);
                    assert forall|i: int| 0 <= i < m2.queue.songs.len() implies #[trigger] is_downloaded(
                        m2.queue.songs[i],
                    ) by {
                        assert(m2.queue.songs[i] == m.queue.songs[if i < k { i } else { i + 1 }]);
                    }
                },
                None => {},
            }
        },
        AudioTask::RemoveSongByIdx(k) => {
            if k < m.queue.songs.len() {
                assert forall|i: int| 0 <= i < m2.queue.songs.len() implies #[trigger] is_downloaded(
                    m2.queue.songs[i],
                ) by {
                    assert(m2.queue.songs[i] == m.queue.songs[if i < k { i } else { i + 1 }]);
                }
            }
        },
        _ => {},
    }
}

/// Skipping backward makes the previous song current and keeps the queue:
/// from position `p > 0` the position becomes `p - 1`; at the first song it
/// stays. The skip asks for a reload.
pub proof fn law_skip_backward_steps_back(m: PlaybackModel, paused: bool)
    ensures
        ({
            let (m2, out) = apply_task_spec(m, AudioTask::SkipBackward, paused);
            &&& m2.queue.songs == m.queue.songs
            &&& m2.queue.repeat == m.queue.repeat
            &&& m.queue.position > 0 ==> m2.queue.position == m.queue.position - 1
            &&& m.queue.position <= 0 ==> m2.queue.position == m.queue.position
            &&& out.reload
        }),
{
}

/// Skipping forward makes the next song current and keeps the queue: from a
/// position before the last song it moves on by one; at the last song it
/// stays.
pub proof fn law_skip_forward_steps_on(m: PlaybackModel, paused: bool)
    ensures
        ({
            let (m2, out) = apply_task_spec(m, AudioTask::SkipForward, paused);
            &&& m2.queue.songs == m.queue.songs
            &&& m.queue.position + 1 < m.queue.songs.len() ==> m2.queue.position == m.queue.position + 1
            &&& m.queue.position + 1 >= m.queue.songs.len() ==> m2.queue.position == m.queue.position
            &&& out.reload
        }),
{
}

/// Skipping backward from a song after the first, then forward, comes back
/// to the same song.
pub proof fn law_skip_back_then_forward(m: PlaybackModel, paused: bool)
    requires
        0 < m.queue.position < m.queue.songs.len(),
    ensures
        apply_task_spec(apply_task_spec(m, AudioTask::SkipBackward, paused).0, AudioTask::SkipForward, paused).0.queue
            == m.queue,
{
}

/// When the sink has run out of audio after a song that was already played,
/// with repeat off and no task holding the position, the next song in the
/// queue plays: the position moves on by exactly one and a reload is asked.
pub proof fn law_advance_plays_next(m: PlaybackModel)
    requires
        !m.queue.repeat,
        !m.first_song,
        0 <= m.queue.position,
        m.queue.position + 1 < m.queue.songs.len(),
    ensures
        advance_spec(m, true, false).0.queue.position == m.queue.position + 1,
        advance_spec(m, true, false).0.queue.songs == m.queue.songs,
        advance_spec(m, true, false).1,
{
}

/// The first time the sink runs out (nothing played yet), the song at the
/// position starts without moving on; while the sink still plays, nothing
/// moves and nothing reloads.
pub proof fn law_advance_starts_first_song(m: PlaybackModel, hold: bool)
    ensures
        m.first_song && !m.queue.repeat && !hold && 0 <= m.queue.position && m.queue.position + 1
            < m.queue.songs.len() ==> {
            &&& advance_spec(m, true, hold).0.queue == m.queue
            &&& !advance_spec(m, true, hold).0.first_song
            &&& advance_spec(m, true, hold).1
        },
        advance_spec(m, false, hold).0 == m,
        !advance_spec(m, false, hold).1,
{
}

/// A scrobble is always of the current song: whenever the check after the
/// advance asks for one, it names the song at the queue's position. It asks
/// exactly when there is a current song, playback passed the threshold and
/// the song was not scrobbled yet.
pub proof fn law_scrobble_names_current_song(m: PlaybackModel, past_threshold: bool)
    ensures
        ({
            let r = observe_spec(m, past_threshold).2;
            &&& r matches Some(ScrobbleRequest::Scrobble(s)) ==> 0 <= m.queue.position < m.queue.songs.len()
                && s == m.queue.songs[m.queue.position]
            &&& r is Some <==> (0 <= m.queue.position < m.queue.songs.len() && past_threshold
                && !m.scrobble_applied)
            &&& observe_spec(m, past_threshold).0.queue == m.queue
        }),
{
}

/// At the end of a tick, a scrobble names the song that is current after the
/// advance.
pub proof fn law_tick_scrobbles_current_song(
    m: PlaybackModel,
    task_reload: bool,
    hold: bool,
    sink_empty: bool,
    position: nat,
)
    ensures
        ({
            let (m2, _, r) = end_tick_spec(m, task_reload, hold, sink_empty, position);
            r matches Some(ScrobbleRequest::Scrobble(s)) ==> 0 <= m2.queue.position < m2.queue.songs.len()
                && s == m2.queue.songs[m2.queue.position]
        }),
{
}

/// Playing, pausing and toggling leave the queue and drive the sink: play
/// resumes it, pause pauses it, and the toggle resumes a paused sink and
/// pauses a playing one. None of them reloads the song.
pub proof fn law_playback_commands(m: PlaybackModel, paused: bool)
    ensures
        apply_task_spec(m, AudioTask::Play, paused).0 == m,
        apply_task_spec(m, AudioTask::Play, paused).1.sink == SinkCommand::Play,
        apply_task_spec(m, AudioTask::Pause, paused).0 == m,
        apply_task_spec(m, AudioTask::Pause, paused).1.sink == SinkCommand::Pause,
        apply_task_spec(m, AudioTask::TogglePlayback, paused).0 == m,
        paused ==> apply_task_spec(m, AudioTask::TogglePlayback, paused).1.sink == SinkCommand::Play,
        !paused ==> apply_task_spec(m, AudioTask::TogglePlayback, paused).1.sink == SinkCommand::Pause,
        !apply_task_spec(m, AudioTask::Play, paused).1.reload,
        !apply_task_spec(m, AudioTask::Pause, paused).1.reload,
        !apply_task_spec(m, AudioTask::TogglePlayback, paused).1.reload,
{
}

/// A reload that started the current song records it as the song playing,
/// keeps the queue and allows one new scrobble.
pub proof fn law_reload_records_current(m: PlaybackModel)
    requires
        0 <= m.queue.position < m.queue.songs.len(),
    ensures
        finish_reload_spec(m, true).now_playing == Some(m.queue.songs[m.queue.position].id),
        finish_reload_spec(m, true).queue == m.queue,
        !finish_reload_spec(m, true).scrobble_applied,
{
}

/// The check after the advance reports a change exactly when a song is
/// recorded as playing and the current song is another one.
pub proof fn law_observe_detects_change(m: PlaybackModel, past_threshold: bool)
    ensures
        observe_spec(m, past_threshold).1 <==> (0 <= m.queue.position < m.queue.songs.len()
            && m.now_playing is Some && m.now_playing->0 != m.queue.songs[m.queue.position].id),
{
}

/// A tick reloads whenever a task asked for it or the sink ran out with songs
/// queued; with neither, and the current song the one playing, it does not.
pub proof fn law_tick_reload(m: PlaybackModel, task_reload: bool, hold: bool, sink_empty: bool, position: nat)
    ensures
        task_reload ==> end_tick_spec(m, task_reload, hold, sink_empty, position).1,
        sink_empty && m.queue.songs.len() > 0 ==> end_tick_spec(m, task_reload, hold, sink_empty, position).1,
        !task_reload && !sink_empty && 0 <= m.queue.position < m.queue.songs.len() && m.now_playing == Some(
            m.queue.songs[m.queue.position].id,
        ) ==> !end_tick_spec(m, task_reload, hold, sink_empty, position).1,
{
}

/// With repeat on, the automatic advance never moves the position.
pub proof fn law_repeat_holds_position(m: PlaybackModel, sink_empty: bool, hold: bool)
    requires
        m.queue.repeat,
    ensures
        advance_spec(m, sink_empty, hold).0.queue == m.queue,
{
}

/// The automatic advance keeps a position that is inside the queue inside
/// the queue, and after the last song goes back to the first.
pub proof fn law_advance_stays_in_queue(m: PlaybackModel, sink_empty: bool, hold: bool)
    requires
        0 <= m.queue.position < m.queue.songs.len(),
    ensures
        0 <= advance_spec(m, sink_empty, hold).0.queue.position < m.queue.songs.len(),
        sink_empty && !m.queue.repeat && m.queue.position == m.queue.songs.len() - 1
            ==> advance_spec(m, sink_empty, hold).0.queue.position == 0,
{
}

/// When nothing starts after a reload, the queue goes back to its start and
/// nothing counts as playing.
pub proof fn law_failed_reload_rewinds(m: PlaybackModel)
    ensures
        finish_reload_spec(m, false).queue.position == 0,
        finish_reload_spec(m, false).now_playing is None,
        finish_reload_spec(m, false).queue.songs == m.queue.songs,
{
}

/// A song is scrobbled at most once between two reloads.
pub proof fn law_scrobble_once(m: PlaybackModel, a: bool, b: bool)
    ensures
        observe_spec(observe_spec(m, a).0, b).2 is Some ==> observe_spec(m, a).2 is None,
{
}

/// The downloaded songs of a sequence are all downloaded.
pub proof fn lemma_downloaded_songs(s: Seq<Song>)
    ensures
        all_downloaded(downloaded_songs(s)),
{
    let f = |x: Song| is_downloaded(x);
    assert forall|i: int| 0 <= i < downloaded_songs(s).len() implies #[trigger] is_downloaded(
        downloaded_songs(s)[i],
    ) by {
        s.lemma_filter_pred(f, i);
    }
}

/// The index found for an id is inside the sequence and holds that id.
pub proof fn lemma_index_of_id_found(s: Seq<Song>, id: usize)
    ensures
        index_of_id(s, id) matches Some(i) ==> 0 <= i < s.len() && s[i].id == id,
    decreases s.len(),
{
    if s.len() > 0 && s[0].id != id {
        lemma_index_of_id_found(s.drop_first(), id);
    }
}

} // verus!
