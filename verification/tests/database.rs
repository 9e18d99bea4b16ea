use resonate::database::{
    DatabaseInterface, DatabaseParam, DatabaseParams, InsertMessage, ItemStream, Statement, CREATE_PLAYLIST_ENTRIES_TABLE,
    CREATE_PLAYLIST_TABLE, CREATE_SECRETS_TABLE, CREATE_SONG_TABLE, INSERT_ENTRY, INSERT_PLAYLIST, INSERT_SECRET, INSERT_SONG,
    REMOVE_ALL_FROM_PLAYLIST, REMOVE_PLAYLIST, REMOVE_SECRET_BY_NAME, REMOVE_SONG_FROM_PLAYLIST, SELECT_ALL_PLAYLISTS,
    SELECT_ALL_SONGS, SELECT_ALL_SONGS_IN_PLAYLIST, SELECT_PLAYLIST_BY_ID, SELECT_SECRET_BY_NAME, SELECT_SONG_BY_TITLE,
    SELECT_SONG_BY_YOUTUBE_ID, UPDATE_PLAYLIST_NAME, SEARCH_PLAYLIST,
};
use resonate::music::{Playlist, Song, Length};
use resonate::settings::Secret;

fn text(s: &str) -> DatabaseParam {
    DatabaseParam::String(s.to_string())
}

fn describe(p: &DatabaseParam) -> String {
    match p {
        DatabaseParam::String(s) => format!("s:{s}"),
        DatabaseParam::Usize(v) => format!("u:{v}"),
        DatabaseParam::Null => String::from("null"),
        DatabaseParam::F46(b) => format!("f:{b}"),
    }
}

fn params(s: &Statement) -> Vec<String> {
    s.params.params().iter().map(describe).collect()
}

fn song_row(id: usize, title: &str) -> Vec<DatabaseParam> {
    vec![DatabaseParam::Usize(id), text("yt"), text(title), text("artist"), text("album"), DatabaseParam::Usize(90)]
}

#[test]
fn params_read_their_values() {
    assert_eq!(DatabaseParam::Usize(5).usize(), 5);
    assert_eq!(text("x").usize(), 0);
    assert_eq!(text("x").string(), "x");
    assert_eq!(DatabaseParam::Null.string(), "");
    assert_eq!(DatabaseParam::F46(1).usize(), 0);
    assert!(DatabaseParams::empty().params().is_empty());
    assert_eq!(DatabaseParams::single(DatabaseParam::Usize(1)).params().len(), 1);
    assert_eq!(DatabaseParams::new(vec![text("a"), text("b")]).params().len(), 2);
}

#[test]
fn tables_are_created_in_order() {
    let t = DatabaseInterface::create_tables();
    let queries: Vec<&str> = t.iter().map(|s| s.query).collect();
    assert_eq!(queries, vec![CREATE_SONG_TABLE, CREATE_PLAYLIST_TABLE, CREATE_PLAYLIST_ENTRIES_TABLE, CREATE_SECRETS_TABLE]);
    assert!(t.iter().all(|s| s.params.params().is_empty()));
}

#[test]
fn statements_bind_their_values_in_order() {
    let s = DatabaseInterface::remove_song_from_playlist(3, 9);
    assert_eq!(s.query, REMOVE_SONG_FROM_PLAYLIST);
    assert_eq!(params(&s), vec!["u:3", "u:9"]);
    let (a, b) = DatabaseInterface::delete_playlist(4);
    assert_eq!((a.query, b.query), (REMOVE_ALL_FROM_PLAYLIST, REMOVE_PLAYLIST));
    assert_eq!(params(&a), vec!["u:4"]);
    assert_eq!(params(&b), vec!["u:4"]);
    let p = Playlist { id: 7, name: String::from("Road") };
    let s = DatabaseInterface::update_playlist_name(&p);
    assert_eq!(s.query, UPDATE_PLAYLIST_NAME);
    assert_eq!(params(&s), vec!["s:Road", "u:7"]);
    let s = DatabaseInterface::insert_playlist_entry(2, 8);
    assert_eq!(s.query, INSERT_ENTRY);
    assert_eq!(params(&s), vec!["u:8", "u:2"]);
    let s = DatabaseInterface::insert_playlist(&p);
    assert_eq!(s.query, INSERT_PLAYLIST);
    assert_eq!(params(&s), vec!["s:Road"]);
    assert_eq!(DatabaseInterface::select_all_songs().query, SELECT_ALL_SONGS);
    assert_eq!(DatabaseInterface::select_all_playlists().query, SELECT_ALL_PLAYLISTS);
    let s = DatabaseInterface::select_playlist_by_id(1);
    assert_eq!((s.query, params(&s)), (SELECT_PLAYLIST_BY_ID, vec![String::from("u:1")]));
    let s = DatabaseInterface::select_all_songs_in_playlist(6);
    assert_eq!((s.query, params(&s)), (SELECT_ALL_SONGS_IN_PLAYLIST, vec![String::from("u:6")]));
    let s = DatabaseInterface::select_song_by_title(String::from("Hey"));
    assert_eq!((s.query, params(&s)), (SELECT_SONG_BY_TITLE, vec![String::from("s:Hey")]));
    let s = DatabaseInterface::select_secret_by_name(String::from("FM_KEY"));
    assert_eq!((s.query, params(&s)), (SELECT_SECRET_BY_NAME, vec![String::from("s:FM_KEY")]));
    let s = DatabaseInterface::select_song_by_youtube_id(String::from("abc"));
    assert_eq!((s.query, params(&s)), (SELECT_SONG_BY_YOUTUBE_ID, vec![String::from("s:abc")]));
    let (a, b) = DatabaseInterface::insert_or_update_secret(String::from("FM_KEY"), String::from("k"));
    assert_eq!((a.query, b.query), (REMOVE_SECRET_BY_NAME, INSERT_SECRET));
    assert_eq!(params(&a), vec!["s:FM_KEY"]);
    assert_eq!(params(&b), vec!["s:FM_KEY", "s:k"]);
}

#[test]
fn insert_song_writes_none_for_a_missing_album() {
    let mut song = Song::new(0, String::from("id"), String::from("T"), String::from("A"), None, Length::from_secs(61));
    let s = DatabaseInterface::insert_song(&song);
    assert_eq!(s.query, INSERT_SONG);
    assert_eq!(params(&s), vec!["s:id", "s:T", "s:A", "s:none", "u:61"]);
    song.album = Some(String::from("Al"));
    assert_eq!(params(&DatabaseInterface::insert_song(&song))[3], "s:Al");
}

#[test]
fn rows_become_songs() {
    let s = DatabaseInterface::construct_song(&song_row(5, "Title")).unwrap();
    assert_eq!(s.id, 5);
    assert_eq!(s.title, "Title");
    assert_eq!(s.album.as_deref(), Some("album"));
    assert_eq!(s.duration, Length::from_secs(90));
    assert!(s.music_path.is_none());
    assert!(DatabaseInterface::construct_song(&vec![DatabaseParam::Usize(1)]).is_none());
    let rows = vec![song_row(1, "a"), vec![], song_row(2, "b")];
    let songs = DatabaseInterface::construct_songs(&rows);
    assert_eq!(songs.iter().map(|s| s.id).collect::<Vec<_>>(), vec![1, 2]);
    assert_eq!(DatabaseInterface::song_by_title(&rows).unwrap().id, 2);
    assert!(DatabaseInterface::song_by_title(&vec![]).is_none());
}

#[test]
fn rows_become_playlists() {
    let p = DatabaseInterface::construct_playlist(vec![DatabaseParam::Usize(3), text("Mix")]).unwrap();
    assert_eq!((p.id, p.name.as_str()), (3, "Mix"));
    assert!(DatabaseInterface::construct_playlist(vec![text("Mix")]).is_none());
    let rows = vec![vec![DatabaseParam::Usize(1), text("One")], vec![DatabaseParam::Usize(2), text("Two")], vec![]];
    assert_eq!(DatabaseInterface::get_playlist_by_id(rows).unwrap().name, "Two");
    assert!(DatabaseInterface::get_playlist_by_id(vec![]).is_none());
    let p = DatabaseInterface::inserted_playlist(Playlist { id: 0, name: String::from("N") }, Some(11));
    assert_eq!(p.id, 11);
    let p = DatabaseInterface::inserted_playlist(Playlist { id: 0, name: String::from("N") }, None);
    assert_eq!(p.id, 0);
}

#[test]
fn rows_become_secrets() {
    let row = vec![DatabaseParam::Usize(1), text("SPOTIFY_ID"), text("abc")];
    match DatabaseInterface::secret_from_row(&row) {
        Some(Secret::SpotifyID(v)) => assert_eq!(v, "abc"),
        other => panic!("unexpected {other:?}"),
    }
    assert!(DatabaseInterface::secret_from_row(&vec![DatabaseParam::Usize(1), text("NOPE"), text("x")]).is_none());
    let rows = vec![
        vec![DatabaseParam::Usize(1), text("FM_KEY"), text("old")],
        vec![DatabaseParam::Usize(2), text("FM_KEY"), text("new")],
        vec![DatabaseParam::Usize(3), text("BAD"), text("x")],
    ];
    match DatabaseInterface::select_secret_by_name_result(&rows) {
        Some(Secret::FMKey(v)) => assert_eq!(v, "new"),
        other => panic!("unexpected {other:?}"),
    }
    assert!(DatabaseInterface::select_secret_by_name_result(&vec![]).is_none());
}

#[test]
fn uniqueness_reads_the_first_answer() {
    assert!(DatabaseInterface::blocking_is_unique(&vec![]));
    assert!(DatabaseInterface::blocking_is_unique(&vec![ItemStream::End]));
    assert!(DatabaseInterface::blocking_is_unique(&vec![ItemStream::Error, ItemStream::Value(vec![])]));
    assert!(!DatabaseInterface::blocking_is_unique(&vec![ItemStream::Value(vec![text("x")]), ItemStream::End]));
}

#[test]
fn insertion_replies() {
    assert_eq!(DatabaseInterface::blocking_insert_song(Some(InsertMessage::Success(4))), Ok(4));
    assert_eq!(DatabaseInterface::blocking_insert_song(Some(InsertMessage::Error)), Err(()));
    assert_eq!(DatabaseInterface::blocking_insert_song(None), Err(()));
}

#[test]
fn a_stored_song_reads_back_with_its_id() {
    let song = Song::new(0, String::from("yt"), String::from("T"), String::from("A"), None, Length::from_secs(77));
    let statement = DatabaseInterface::insert_song(&song);
    let mut row = vec![DatabaseParam::Usize(31)];
    row.extend(statement.params.params().iter().cloned());
    let back = DatabaseInterface::construct_song(&row).unwrap();
    assert_eq!(back.id, 31);
    assert_eq!((back.yt_id.as_str(), back.title.as_str(), back.artist.as_str()), ("yt", "T", "A"));
    assert_eq!(back.album.as_deref(), Some("none"));
    assert_eq!(back.duration, Length::from_secs(77));
}

#[test]
fn a_stored_playlist_and_secret_read_back() {
    let p = Playlist { id: 0, name: String::from("Road trip") };
    let statement = DatabaseInterface::insert_playlist(&p);
    let mut row = vec![DatabaseParam::Usize(8)];
    row.extend(statement.params.params().iter().cloned());
    let back = DatabaseInterface::construct_playlist(row).unwrap();
    assert_eq!((back.id, back.name.as_str()), (8, "Road trip"));
    let (name, value) = Secret::FMSession(String::from("abc")).into_entry();
    let row = vec![DatabaseParam::Usize(1), DatabaseParam::String(name), DatabaseParam::String(value)];
    match DatabaseInterface::secret_from_row(&row) {
        Some(Secret::FMSession(v)) => assert_eq!(v, "abc"),
        other => panic!("unexpected {other:?}"),
    }
}

fn placeholders(query: &str) -> usize {
    query.chars().filter(|c| *c == '?').count()
}

#[test]
fn every_statement_binds_one_value_per_placeholder() {
    let p = Playlist { id: 7, name: String::from("Road") };
    let song = Song::new(0, String::from("id"), String::from("T"), String::from("A"), None, Length::from_secs(61));
    let (a, b) = DatabaseInterface::delete_playlist(4);
    let (c, d) = DatabaseInterface::insert_or_update_secret(String::from("FM_KEY"), String::from("k"));
    let statements = vec![
        DatabaseInterface::remove_song_from_playlist(3, 9),
        a,
        b,
        c,
        d,
        DatabaseInterface::update_playlist_name(&p),
        DatabaseInterface::insert_playlist_entry(2, 8),
        DatabaseInterface::insert_playlist(&p),
        DatabaseInterface::insert_song(&song),
        DatabaseInterface::select_playlist_by_id(1),
        DatabaseInterface::select_all_songs_in_playlist(6),
        DatabaseInterface::search_playlist(6, String::from("rock")),
        DatabaseInterface::select_song_by_title(String::from("Hey")),
        DatabaseInterface::select_secret_by_name(String::from("FM_KEY")),
        DatabaseInterface::select_song_by_youtube_id(String::from("abc")),
        DatabaseInterface::select_all_songs(),
        DatabaseInterface::select_all_playlists(),
    ];
    for s in &statements {
        assert_eq!(placeholders(s.query), s.params.params().len(), "{}", s.query);
    }
}

#[test]
fn a_secret_row_fills_the_three_columns() {
    assert!(INSERT_SECRET.contains("VALUES(null, ?, ?)"));
    assert_eq!(CREATE_SECRETS_TABLE.matches(',').count() + 1, 3);
    assert!(UPDATE_PLAYLIST_NAME.starts_with("UPDATE Playlists SET title = ?"));
}

#[test]
fn searching_a_playlist_matches_title_artist_or_album() {
    let s = DatabaseInterface::search_playlist(3, String::from("rock"));
    assert_eq!(s.query, SEARCH_PLAYLIST);
    assert_eq!(params(&s), vec!["u:3", "s:%rock%", "s:%rock%", "s:%rock%"]);
    let s = DatabaseInterface::search_playlist(1, String::new());
    assert_eq!(params(&s), vec!["u:1", "s:%%", "s:%%", "s:%%"]);
    assert!(SEARCH_PLAYLIST.contains("Entries.playlist_id = ?"));
    assert!(SEARCH_PLAYLIST.contains("Songs.title LIKE ? OR Songs.artist LIKE ? OR Songs.album LIKE ?"));
}

#[test]
fn the_row_a_stored_secret_leaves_reads_back_as_the_secret() {
    let (_, insert) = DatabaseInterface::insert_or_update_secret(String::from("FM_KEY"), String::from("k"));
    let mut row = vec![DatabaseParam::Usize(12)];
    for p in insert.params.params() {
        row.push(match p {
            DatabaseParam::String(s) => DatabaseParam::String(s.clone()),
            _ => panic!("expected text"),
        });
    }
    match DatabaseInterface::select_secret_by_name_result(&vec![row]) {
        Some(Secret::FMKey(v)) => assert_eq!(v, "k"),
        other => panic!("unexpected {other:?}"),
    }
}
