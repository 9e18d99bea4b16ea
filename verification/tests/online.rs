use resonate::error::ResonateError;
use resonate::music::{Song, Length};
use resonate::spotify::{
    extract_spotify_playlist_id, join_artists, playlist_reference, track_search, video_id_from_output, SpotifyEmission,
    SpotifyStreamState, StreamMessage, StreamPoll,
};
use resonate::util::{checked_song_similarity, combine_scores, is_song_similar, song_matches_query};
use resonate::web::{
    audio_file_name, flat_results, populate, search_ids, search_url, song_from_metadata, watch_url, FlatEntry, MetadataPool,
    PoolStart,
};

fn song(title: &str, artist: &str, album: Option<&str>) -> Song {
    Song::new(1, String::from("v"), title.to_string(), artist.to_string(), album.map(|a| a.to_string()), Length::from_secs(100))
}

#[test]
fn share_links_give_their_playlist_id() {
    let id = "37i9dQZF1DXcBWIGoYBM5M";
    assert_eq!(
        extract_spotify_playlist_id(format!("https://open.spotify.com/playlist/{id}?si=abc")),
        Some(id.to_string())
    );
    assert_eq!(extract_spotify_playlist_id(format!("https://open.spotify.com/playlist/{id}")), Some(id.to_string()));
    assert_eq!(extract_spotify_playlist_id(String::from("https://open.spotify.com/playlist/short")), None);
    assert_eq!(extract_spotify_playlist_id(String::from("no slashes")), None);
    assert_eq!(playlist_reference(format!("https://open.spotify.com/playlist/{id}?x=1")), id);
    assert_eq!(playlist_reference(String::from("abcdefghijk")), "abcdefghijk");
    assert_eq!(playlist_reference(String::from("spotify:playlist:whatever")), "spotify:playlist:whatever");
}

#[test]
fn tracks_are_searched_by_name_and_artists() {
    assert_eq!(join_artists(&vec![]), "");
    assert_eq!(join_artists(&vec![String::from("A"), String::from("B C")]), "A B C");
    assert_eq!(track_search(&String::from("Song"), &String::from("A B")), "ytsearch1:Song A B");
}

#[test]
fn the_first_output_line_is_the_video_id() {
    assert_eq!(video_id_from_output(Some(String::from("  dQw4w9WgXcQ \n"))), Ok(String::from("dQw4w9WgXcQ")));
    assert_eq!(video_id_from_output(Some(String::from("short"))), Err(ResonateError::STDOUTError));
    assert_eq!(video_id_from_output(None), Err(ResonateError::STDOUTError));
}

#[test]
fn the_stream_sends_the_count_once_then_ends() {
    let mut st = SpotifyStreamState::new();
    assert!(matches!(st.on_message::<u8>(StreamMessage::WakerReceived), StreamPoll::Continue));
    assert!(st.waker_received);
    match st.on_message::<u8>(StreamMessage::PlaylistName(String::from("Mix"), 3)) {
        StreamPoll::Emit(SpotifyEmission::Name(n, c)) => assert_eq!((n.as_str(), c), ("Mix", 3)),
        _ => panic!("expected the name"),
    }
    assert!(matches!(st.on_message(StreamMessage::Result(7u8)), StreamPoll::Emit(SpotifyEmission::Item(7))));
    assert!(matches!(st.on_message(StreamMessage::Result(8u8)), StreamPoll::Emit(SpotifyEmission::Item(8))));
    assert_eq!(st.result_count, 2);
    match st.on_message::<u8>(StreamMessage::Done) {
        StreamPoll::Emit(SpotifyEmission::Name(n, c)) => assert_eq!((n.as_str(), c), ("Mix", 2)),
        _ => panic!("expected the final count"),
    }
    assert!(matches!(st.on_message::<u8>(StreamMessage::Done), StreamPoll::End));
    assert!(matches!(st.on_message::<u8>(StreamMessage::InvalidID), StreamPoll::Emit(SpotifyEmission::IDFailure)));
    assert!(matches!(st.on_message::<u8>(StreamMessage::Other), StreamPoll::Continue));
}

#[test]
fn similarity_sums_the_fuzzy_scores() {
    assert_eq!(combine_scores(Some(10), Some(-5), None), Some(10));
    assert_eq!(combine_scores(Some(i64::MAX), Some(1), None), None);
    assert_eq!(combine_scores(None, None, None), Some(0));
    let s = song("Bohemian Rhapsody", "Queen", Some("A Night at the Opera"));
    assert_eq!(checked_song_similarity(&s, &String::new()), Some(0));
    assert_eq!(song_matches_query(&s, &String::new()), Some(false));
    assert_eq!(song_matches_query(&s, &String::from("zzzzqqq")), Some(false));
    assert_eq!(song_matches_query(&s, &String::from("bohemian rhapsody")), Some(true));
    assert!(is_song_similar(&s, &String::from("bohemian rhapsody")) > 70);
    let no_album = song("Bohemian Rhapsody", "Queen", None);
    assert!(is_song_similar(&no_album, &String::from("queen")) > 0);
}

#[test]
fn addresses_for_the_downloader() {
    assert_eq!(search_url("never gonna give"), "https://music.youtube.com/search?q=never+gonna+give");
    assert_eq!(search_url(""), "https://music.youtube.com/search?q=");
    assert_eq!(watch_url("abc"), "https://music.youtube.com/watch?v=abc");
    assert_eq!(audio_file_name("abc"), "abc.mp3");
}

#[test]
fn search_results_keep_entries_with_titles() {
    let entries = vec![
        FlatEntry { id: String::from("a"), title: Some(String::from("A")) },
        FlatEntry { id: String::from("b"), title: None },
        FlatEntry { id: String::from("c"), title: Some(String::from("C")) },
    ];
    assert_eq!(flat_results(entries), vec!["a", "c"]);
    assert_eq!(search_ids(Err(())), Err(ResonateError::NetworkError));
    assert_eq!(search_ids(Ok(None)), Ok(vec![]));
    assert_eq!(search_ids(Ok(Some(vec![FlatEntry { id: String::from("x"), title: Some(String::new()) }]))), Ok(vec![String::from("x")]));
}

#[test]
fn metadata_needs_title_artist_and_duration() {
    let s = song_from_metadata(
        String::from("id"),
        Some(String::from("T")),
        Some(String::from("A")),
        Some(Some(125)),
        Some(String::from("Al")),
        None,
    )
    .unwrap();
    assert_eq!((s.id, s.yt_id.as_str(), s.duration), (0, "id", Length::from_secs(125)));
    assert_eq!(s.album.as_deref(), Some("Al"));
    let s = song_from_metadata(String::from("id"), Some(String::from("T")), Some(String::from("A")), Some(None), None, None).unwrap();
    assert_eq!(s.duration, Length::from_secs(0));
    let e = song_from_metadata(String::from("id"), None, Some(String::from("A")), Some(Some(1)), None, None);
    assert_eq!(e, Err(ResonateError::NetworkError));
    let e = song_from_metadata(String::from("id"), Some(String::from("T")), Some(String::from("A")), None, None, None);
    assert_eq!(e, Err(ResonateError::NetworkError));
}

#[test]
fn populate_stores_a_new_song_with_its_id() {
    let found = song("T", "A", None);
    let r = populate(true, || Ok(found.clone()), |s: Song| if s.title == "T" { Ok(42) } else { Err(()) });
    assert_eq!(r.unwrap().id, 42);
    let r = populate(false, || -> Result<Song, ResonateError> { panic!("not collected") }, |_s: Song| -> Result<usize, ()> { panic!("not inserted") });
    assert_eq!(r, Err(ResonateError::AlreadyExists));
    let r = populate(true, || Err(ResonateError::NetworkError), |_s: Song| -> Result<usize, ()> { panic!("not inserted") });
    assert_eq!(r, Err(ResonateError::NetworkError));
    let r = populate(true, || Ok(found.clone()), |_s: Song| Err(()));
    assert_eq!(r, Err(ResonateError::SQLError));
}

#[test]
fn the_metadata_pool_takes_ids_from_the_end_one_at_a_time() {
    let mut pool = MetadataPool::new(vec![String::from("a"), String::from("b")]);
    match pool.begin_poll() {
        PoolStart::Spawn(id) => assert_eq!(id, "b"),
        _ => panic!("expected a worker"),
    }
    assert!(matches!(pool.begin_poll(), PoolStart::Running));
    assert_eq!(pool.finish(Some(Err(ResonateError::AlreadyExists))), Some(Err(())));
    match pool.begin_poll() {
        PoolStart::Spawn(id) => assert_eq!(id, "a"),
        _ => panic!("expected a worker"),
    }
    let r = pool.finish(Some(Ok(song("T", "A", None)))).unwrap().unwrap();
    assert_eq!(r.title, "T");
    assert!(matches!(pool.begin_poll(), PoolStart::End));
    let mut pool = MetadataPool::new(vec![String::from("x")]);
    pool.begin_poll();
    assert!(pool.finish(None).is_none());
}
