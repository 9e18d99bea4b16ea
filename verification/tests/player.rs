use resonate::music::{Song, Length};
use resonate::player::{AudioTask, PlaybackState, QueueFramework, QueueItem, Queue, ScrobbleRequest, SinkCommand};

fn song(id: usize, downloaded: bool) -> Song {
    let mut s = Song::new(
        id,
        format!("yt{id}"),
        format!("Title {id}"),
        String::from("Artist"),
        None,
        Length::from_secs(180),
    );
    if downloaded {
        s.music_path = Some(format!("/music/yt{id}.mp3"));
    }
    s
}

fn ids(state: &PlaybackState) -> Vec<usize> {
    state.snapshot(false).songs.iter().map(|s| s.id).collect()
}

#[test]
fn queue_item_needs_a_downloaded_song() {
    assert!(QueueItem::new(song(1, false)).is_none());
    let mut item = QueueItem::new(song(2, true)).unwrap();
    assert_eq!(item.song().id, 2);
    assert!(item.audio().is_none());
    item.load(Some(vec![1, 2, 3]));
    assert_eq!(item.audio(), Some(&vec![1, 2, 3]));
    item.load(None);
    assert_eq!(item.audio(), Some(&vec![1, 2, 3]));
}

#[test]
fn new_state_is_empty() {
    let _ = Queue::new();
    let state = PlaybackState::new();
    assert_eq!(state.len(), 0);
    assert_eq!(state.position(), 0);
    assert!(state.current_song().is_none());
    let snap = state.snapshot(true);
    assert!(snap.songs.is_empty());
    assert!(snap.playing);
    assert!(!snap.repeat);
}

#[test]
fn push_keeps_only_downloaded_songs() {
    let mut state = PlaybackState::new();
    let out = state.apply_task(AudioTask::Push(song(1, true)), false);
    assert!(out.publish);
    assert!(!out.reload);
    assert_eq!(out.sink, SinkCommand::Keep);
    state.apply_task(AudioTask::Push(song(2, false)), false);
    state.apply_task(AudioTask::Push(song(3, true)), false);
    assert_eq!(ids(&state), vec![1, 3]);
    assert_eq!(state.position(), 0);
}

#[test]
fn insert_keeps_the_current_song() {
    let mut state = PlaybackState::new();
    state.apply_task(AudioTask::Push(song(1, true)), false);
    state.apply_task(AudioTask::Push(song(2, true)), false);
    state.apply_task(AudioTask::Move(1), false);
    assert_eq!(state.current_song().unwrap().id, 2);
    state.apply_task(AudioTask::Insert(song(9, true)), false);
    assert_eq!(ids(&state), vec![9, 1, 2]);
    assert_eq!(state.position(), 2);
    assert_eq!(state.current_song().unwrap().id, 2);
}

#[test]
fn insert_into_empty_queue_stays_at_start() {
    let mut state = PlaybackState::new();
    state.apply_task(AudioTask::Insert(song(5, true)), false);
    assert_eq!(ids(&state), vec![5]);
    assert_eq!(state.position(), 0);
}

#[test]
fn toggle_playback_follows_the_sink() {
    let mut state = PlaybackState::new();
    assert_eq!(state.apply_task(AudioTask::TogglePlayback, true).sink, SinkCommand::Play);
    assert_eq!(state.apply_task(AudioTask::TogglePlayback, false).sink, SinkCommand::Pause);
    assert_eq!(state.apply_task(AudioTask::Play, false).sink, SinkCommand::Play);
    assert_eq!(state.apply_task(AudioTask::Pause, true).sink, SinkCommand::Pause);
    assert!(state.apply_task(AudioTask::EndThread, true).end);
}

#[test]
fn toggling_repeat_twice_restores_it() {
    let mut state = PlaybackState::new();
    state.apply_task(AudioTask::ToggleRepeat, false);
    assert!(state.snapshot(false).repeat);
    state.apply_task(AudioTask::ToggleRepeat, false);
    assert!(!state.snapshot(false).repeat);
}

#[test]
fn skipping_stops_at_the_ends() {
    let mut state = PlaybackState::new();
    state.apply_task(AudioTask::Push(song(1, true)), false);
    state.apply_task(AudioTask::Push(song(2, true)), false);
    let out = state.apply_task(AudioTask::SkipForward, false);
    assert!(out.reload);
    assert_eq!(state.position(), 1);
    state.apply_task(AudioTask::SkipForward, false);
    assert_eq!(state.position(), 1);
    state.apply_task(AudioTask::SkipBackward, false);
    assert_eq!(state.position(), 0);
    state.apply_task(AudioTask::SkipBackward, false);
    assert_eq!(state.position(), 0);
}

#[test]
fn move_to_the_current_or_a_missing_place_does_nothing() {
    let mut state = PlaybackState::new();
    state.apply_task(AudioTask::Push(song(1, true)), false);
    state.apply_task(AudioTask::Push(song(2, true)), false);
    let out = state.apply_task(AudioTask::Move(0), false);
    assert!(!out.reload && !out.publish);
    let out = state.apply_task(AudioTask::Move(7), false);
    assert!(!out.reload);
    assert_eq!(state.position(), 0);
    let out = state.apply_task(AudioTask::Move(1), false);
    assert!(out.reload);
    assert_eq!(state.position(), 1);
}

#[test]
fn removing_an_earlier_song_keeps_the_current_one() {
    let mut state = PlaybackState::new();
    for i in 1..=4 {
        state.apply_task(AudioTask::Push(song(i, true)), false);
    }
    state.apply_task(AudioTask::Move(2), false);
    state.apply_task(AudioTask::RemoveSongByIdx(0), false);
    assert_eq!(ids(&state), vec![2, 3, 4]);
    assert_eq!(state.current_song().unwrap().id, 3);
    state.apply_task(AudioTask::RemoveSongById(2), false);
    assert_eq!(ids(&state), vec![3, 4]);
    assert_eq!(state.current_song().unwrap().id, 3);
    let out = state.apply_task(AudioTask::RemoveSongById(99), false);
    assert!(!out.reload);
    let out = state.apply_task(AudioTask::RemoveSongByIdx(10), false);
    assert!(!out.reload);
    assert_eq!(ids(&state), vec![3, 4]);
}

#[test]
fn set_queue_keeps_downloaded_songs_and_restarts() {
    let mut state = PlaybackState::new();
    state.apply_task(AudioTask::Push(song(1, true)), false);
    state.apply_task(AudioTask::Move(0), false);
    let out = state.apply_task(
        AudioTask::SetQueue(vec![song(5, true), song(6, false), song(7, true)]),
        false,
    );
    assert_eq!(out.sink, SinkCommand::Restart);
    assert!(out.reload);
    assert!(out.hold_position);
    assert_eq!(ids(&state), vec![5, 7]);
    assert_eq!(state.position(), 0);
}

#[test]
fn clear_empties_the_queue() {
    let mut state = PlaybackState::new();
    state.apply_task(AudioTask::Push(song(1, true)), false);
    state.apply_task(AudioTask::ToggleRepeat, false);
    let out = state.apply_task(AudioTask::ClearQueue, false);
    assert!(out.reload);
    assert_eq!(state.len(), 0);
    assert_eq!(state.position(), 0);
    assert!(state.snapshot(false).repeat);
}

#[test]
fn advance_plays_the_first_song_then_moves_on() {
    let mut state = PlaybackState::new();
    state.apply_task(AudioTask::Push(song(1, true)), false);
    state.apply_task(AudioTask::Push(song(2, true)), false);
    assert!(!state.advance(false, false));
    assert!(state.advance(true, false));
    assert_eq!(state.position(), 0);
    assert!(state.advance(true, false));
    assert_eq!(state.position(), 1);
    assert!(state.advance(true, false));
    assert_eq!(state.position(), 0);
}

#[test]
fn repeat_holds_the_position() {
    let mut state = PlaybackState::new();
    state.apply_task(AudioTask::Push(song(1, true)), false);
    state.apply_task(AudioTask::Push(song(2, true)), false);
    state.advance(true, false);
    state.apply_task(AudioTask::ToggleRepeat, false);
    assert!(state.advance(true, false));
    assert_eq!(state.position(), 0);
    state.apply_task(AudioTask::ToggleRepeat, false);
    assert!(state.advance(true, true));
    assert_eq!(state.position(), 0);
}

#[test]
fn a_failed_reload_rewinds_the_queue() {
    let mut state = PlaybackState::new();
    state.apply_task(AudioTask::Push(song(1, true)), false);
    state.apply_task(AudioTask::Push(song(2, true)), false);
    state.apply_task(AudioTask::Move(1), false);
    assert!(state.finish_reload(false));
    assert_eq!(state.position(), 0);
    assert!(!state.finish_reload(true));
    assert_eq!(state.position(), 0);
}

#[test]
fn scrobbles_once_per_loaded_song() {
    let mut state = PlaybackState::new();
    state.apply_task(AudioTask::Push(song(1, true)), false);
    state.apply_task(AudioTask::Push(song(2, true)), false);
    state.finish_reload(true);
    let (changed, request) = state.observe(false);
    assert!(!changed);
    assert!(request.is_none());
    let (_, request) = state.observe(true);
    match request {
        Some(ScrobbleRequest::Scrobble(s)) => assert_eq!(s.id, 1),
        _ => panic!("expected a scrobble"),
    }
    let (_, request) = state.observe(true);
    assert!(request.is_none());
    state.apply_task(AudioTask::Move(1), false);
    let (changed, _) = state.observe(false);
    assert!(changed);
}

#[test]
fn load_current_reads_the_current_item() {
    let mut state = PlaybackState::new();
    assert!(state.load_current(Some(vec![0])).is_none());
    state.apply_task(AudioTask::Push(song(1, true)), false);
    let item = state.load_current(Some(vec![7, 7])).unwrap();
    assert_eq!(item.song().id, 1);
    assert_eq!(item.audio(), Some(&vec![7, 7]));
}

#[test]
fn queue_framework_default_is_empty() {
    let q = QueueFramework::default();
    assert!(q.songs.is_empty());
    assert_eq!(q.position, 0);
    assert!(!q.playing);
    assert!(!q.repeat);
    let mut r = q.clone();
    r.position = 3;
    assert_eq!(q.position, 0);
}

#[test]
fn inserting_a_song_without_a_file_changes_nothing() {
    let mut state = PlaybackState::new();
    state.apply_task(AudioTask::Push(song(1, true)), false);
    state.apply_task(AudioTask::Push(song(2, true)), false);
    state.apply_task(AudioTask::Move(1), false);
    let out = state.apply_task(AudioTask::Insert(song(9, false)), false);
    assert!(out.publish);
    assert_eq!(ids(&state), vec![1, 2]);
    assert_eq!(state.position(), 1);
}

#[test]
fn a_tick_reloads_on_a_new_song_and_scrobbles_past_a_fifth() {
    let mut state = PlaybackState::new();
    state.apply_task(AudioTask::Push(song(1, true)), false);
    state.apply_task(AudioTask::Push(song(2, true)), false);
    let (reload, request) = state.end_tick(false, false, true, Length::from_secs(0));
    assert!(reload);
    assert!(request.is_none());
    assert!(!state.finish_reload(true));
    let (reload, request) = state.end_tick(false, false, false, Length::from_secs(36));
    assert!(!reload);
    assert!(request.is_none());
    let (reload, request) = state.end_tick(false, false, false, Length { secs: 36, nanos: 1 });
    assert!(!reload);
    match request {
        Some(ScrobbleRequest::Scrobble(s)) => assert_eq!(s.id, 1),
        _ => panic!("expected a scrobble"),
    }
    let (reload, request) = state.end_tick(true, false, false, Length::from_secs(50));
    assert!(reload);
    assert!(request.is_none());
    state.apply_task(AudioTask::Move(1), false);
    let (reload, _) = state.end_tick(false, false, false, Length::from_secs(0));
    assert!(reload);
}

#[test]
fn a_song_with_a_fraction_of_a_second_scrobbles_past_its_exact_fifth() {
    let mut state = PlaybackState::new();
    let mut s = song(1, true);
    s.duration = Length { secs: 10, nanos: 900_000_000 };
    state.apply_task(AudioTask::Push(s), false);
    state.end_tick(false, false, true, Length::from_secs(0));
    state.finish_reload(true);
    let (_, request) = state.end_tick(false, false, false, Length { secs: 2, nanos: 100_000_000 });
    assert!(request.is_none());
    let (_, request) = state.end_tick(false, false, false, Length { secs: 2, nanos: 180_000_000 });
    assert!(request.is_none());
    let (_, request) = state.end_tick(false, false, false, Length { secs: 2, nanos: 180_000_001 });
    assert!(matches!(request, Some(ScrobbleRequest::Scrobble(_))));
}
