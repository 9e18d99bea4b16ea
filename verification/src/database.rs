//! The statements the backend sends to the database, and the reading of the
//! rows it sends back.
//!
//! The database runs on a thread of its own; the rest of the backend hands
//! it [`Statement`]s and reads the rows it returns. This module builds the
//! statements and turns rows into songs, playlists and secrets.
use vstd::prelude::*;
use crate::music::{Song, Playlist, Length};
use crate::text::{push_char, push_str};
use crate::settings::{Secret, SecretKind, secret_from_entry, opt_secret_view, secret_view, kind_name, law_secret_roundtrip};

verus! {

pub const CREATE_SONG_TABLE: &'static str = "
    CREATE TABLE IF NOT EXISTS Songs (
        id INTEGER PRIMARY KEY AUTOINCREMENT,
        yt_id TEXT NOT NULL,
        title TEXT NOT NULL,
        artist TEXT NOT NULL,
        album TEXT NOT NULL,
        duration INTEGER NOT NULL
    );
";

pub const CREATE_PLAYLIST_TABLE: &'static str = "
    CREATE TABLE IF NOT EXISTS Playlists (
        id INTEGER PRIMARY KEY AUTOINCREMENT,
        title TEXT NOT NULL
    );
";

pub const CREATE_PLAYLIST_ENTRIES_TABLE: &'static str = "
    CREATE TABLE IF NOT EXISTS Entries (
        playlist_id INTEGER,
        song_id INTEGER,
        PRIMARY KEY (playlist_id, song_id),
        FOREIGN KEY (playlist_id) REFERENCES Playlists(id) ON DELETE CASCADE,
        FOREIGN KEY (song_id) REFERENCES Songs(id) ON DELETE CASCADE
    );
";

pub const CREATE_SECRETS_TABLE: &'static str = "
    CREATE TABLE IF NOT EXISTS Secrets (
        id INTEGER PRIMARY KEY AUTOINCREMENT,
        name TEXT NOT NULL,
        value TEXT NOT NULL
    );
";

pub const INSERT_SONG: &'static str = "
    INSERT INTO Songs
    VALUES(null, ?, ?, ?, ?, ?)
";

pub const INSERT_PLAYLIST: &'static str = "
    INSERT INTO Playlists
    VALUES(null, ?)
";

pub const INSERT_ENTRY: &'static str = "
    INSERT INTO Entries
    VALUES(?, ?)
";

pub const SELECT_ALL_SONGS_IN_PLAYLIST: &'static str = "
    SELECT Songs.* FROM Songs
    INNER JOIN Entries ON Songs.id = Entries.song_id
    WHERE Entries.playlist_id = ?;
";

pub const SEARCH_PLAYLIST: &'static str = "
    SELECT Songs.* FROM Songs
    INNER JOIN Entries ON Songs.id = Entries.song_id
    WHERE Entries.playlist_id = ?
    AND (Songs.title LIKE ? OR Songs.artist LIKE ? OR Songs.album LIKE ?);
";

pub const INSERT_SECRET: &'static str = "
    INSERT INTO Secrets
    VALUES(null, ?, ?)
";

pub const REMOVE_SONG_FROM_PLAYLIST: &'static str = "DELETE FROM Entries WHERE song_id = ? AND playlist_id = ?";

pub const REMOVE_ALL_FROM_PLAYLIST: &'static str = "DELETE FROM Entries WHERE playlist_id = ?";

pub const REMOVE_PLAYLIST: &'static str = "DELETE FROM Playlists WHERE id = ?";

pub const SELECT_SONG_BY_YOUTUBE_ID: &'static str = "SELECT * FROM Songs WHERE yt_id = ?";

pub const SELECT_ALL_SONGS: &'static str = "SELECT * FROM Songs";

pub const UPDATE_PLAYLIST_NAME: &'static str = "UPDATE Playlists SET title = ? WHERE id = ?";

pub const SELECT_PLAYLIST_BY_ID: &'static str = "SELECT * FROM Playlists WHERE id = ?";

pub const SELECT_ALL_PLAYLISTS: &'static str = "SELECT * FROM Playlists";

pub const SELECT_SONG_BY_TITLE: &'static str = "SELECT * FROM Songs WHERE title = ?";

pub const SELECT_SECRET_BY_NAME: &'static str = "SELECT * FROM Secrets WHERE name = ?";

pub const REMOVE_SECRET_BY_NAME: &'static str = "DELETE FROM Secrets WHERE name = ?";

/// A value bound to a statement or read from a row. A real number is held
/// by the bits of its `f64`.
#[derive(Debug)]
pub enum DatabaseParam {
    String(String),
    Usize(usize),
    Null,
    F46(u64),
}

impl Clone for DatabaseParam {
    fn clone(&self) -> (r: Self)
        ensures
            r == *self,
    {
        match self {
            DatabaseParam::String(s) => DatabaseParam::String(s.clone()),
            DatabaseParam::Usize(v) => DatabaseParam::Usize(*v),
            DatabaseParam::Null => DatabaseParam::Null,
            DatabaseParam::F46(v) => DatabaseParam::F46(*v),
        }
    }
}

/// The integer a value holds; zero for a value that is not an integer.
pub open spec fn param_usize(p: DatabaseParam) -> usize {
    match p {
        DatabaseParam::Usize(v) => v,
        _ => 0,
    }
}

/// The text a value holds; empty for a value that is not text.
pub open spec fn param_text(p: DatabaseParam) -> Seq<char> {
    match p {
        DatabaseParam::String(s) => s@,
        _ => Seq::empty(),
    }
}

impl DatabaseParam {
    /// The integer this value holds; zero when it holds none.
    pub fn usize(&self) -> (r: usize)
        ensures
            r == param_usize(*self),
    {
        match self {
            DatabaseParam::Usize(v) => *v,
            _ => 0,
        }
    }

    /// The text this value holds; empty when it holds none.
    pub fn string(&self) -> (r: String)
        ensures
            r@ == param_text(*self),
            self matches DatabaseParam::String(s) ==> r == s,
    {
        match self {
            DatabaseParam::String(s) => s.clone(),
            _ => String::new(),
        }
    }
}

/// The values bound to a statement, in order.
#[derive(Debug)]
pub struct DatabaseParams {
    params: Vec<DatabaseParam>,
}

impl DatabaseParams {
    /// The values, in order.
    pub closed spec fn values(self) -> Seq<DatabaseParam> {
        self.params@
    }

    /// No values.
    pub fn empty() -> (r: DatabaseParams)
        ensures
            r.values() == Seq::<DatabaseParam>::empty(),
    {
        DatabaseParams { params: Vec::new() }
    }

    /// The given values.
    pub fn new(params: Vec<DatabaseParam>) -> (r: DatabaseParams)
        ensures
            r.values() == params@,
    {
        DatabaseParams { params }
    }

    /// One value.
    pub fn single(param: DatabaseParam) -> (r: DatabaseParams)
        ensures
            r.values() == seq![param],
    {
        let mut params = Vec::new();
        params.push(param);
        assert(params@ =~= seq![param]);
        DatabaseParams { params }
    }

    /// The values, in order.
    pub fn params(&self) -> (r: &Vec<DatabaseParam>)
        ensures
            r@ == self.values(),
    {
        &self.params
    }
}

/// A statement and the values bound to it.
#[derive(Debug)]
pub struct Statement {
    pub query: &'static str,
    pub params: DatabaseParams,
}

/// One message of a query's answer: a row, a failure, or the end.
#[derive(Debug)]
pub enum ItemStream {
    Value(Vec<DatabaseParam>),
    Error,
    End,
}

/// The answer to an insertion: the id of the new row, or a failure.
#[derive(Debug, Clone, Copy, PartialEq, Eq, Structural)]
pub enum InsertMessage {
    Success(usize),
    Error,
}

/// A bound or read value as plain values.
pub enum ParamView {
    Text(Seq<char>),
    Int(usize),
    Null,
    Real(u64),
}

/// The plain value of a bound or read value.
pub open spec fn param_view(p: DatabaseParam) -> ParamView {
    match p {
        DatabaseParam::String(s) => ParamView::Text(s@),
        DatabaseParam::Usize(v) => ParamView::Int(v),
        DatabaseParam::Null => ParamView::Null,
        DatabaseParam::F46(b) => ParamView::Real(b),
    }
}

/// The pattern that matches every text containing `query`.
pub open spec fn like_pattern(query: Seq<char>) -> Seq<char> {
    seq!['%'] + query + seq!['%']
}

/// The plain values bound to a statement.
pub open spec fn statement_view(s: Statement) -> (&'static str, Seq<ParamView>) {
    (s.query, s.params.values().map_values(|p: DatabaseParam| param_view(p)))
}

/// The values that store a song: video id, title, artist, album (`none`
/// when there is none) and the whole seconds of its duration.
pub open spec fn song_params(s: Song) -> Seq<ParamView> {
    seq![
        ParamView::Text(s.yt_id@),
        ParamView::Text(s.title@),
        ParamView::Text(s.artist@),
        ParamView::Text(match s.album { Some(a) => a@, None => "none"@ }),
        ParamView::Int(s.duration.secs as usize),
    ]
}

/// Whether the answer to a query holds a row before its first end or
/// failure.
pub open spec fn row_before_end(items: Seq<ItemStream>) -> bool {
    items.len() > 0 && items[0] is Value
}

/// The song a row of the `Songs` table stands for, before its files are
/// looked up: the row must have six values.
pub open spec fn song_from_row_spec(row: Seq<DatabaseParam>) -> Option<(usize, Seq<char>, Seq<char>, Seq<char>, Seq<char>, usize)> {
    if row.len() != 6 {
        None
    } else {
        Some((
            param_usize(row[0]),
            param_text(row[1]),
            param_text(row[2]),
            param_text(row[3]),
            param_text(row[4]),
            param_usize(row[5]),
        ))
    }
}

/// The plain values of a song that has not been downloaded.
pub open spec fn song_fields(s: Song) -> (usize, Seq<char>, Seq<char>, Seq<char>, Seq<char>, usize) {
    (
        s.id,
        s.yt_id@,
        s.title@,
        s.artist@,
        match s.album { Some(a) => a@, None => Seq::empty() },
        s.duration.secs as usize,
    )
}

/// The playlist a row of the `Playlists` table stands for: the row must have
/// two values.
pub open spec fn playlist_from_row_spec(row: Seq<DatabaseParam>) -> Option<(usize, Seq<char>)> {
    if row.len() != 2 {
        None
    } else {
        Some((param_usize(row[0]), param_text(row[1])))
    }
}

/// The secret a row of the `Secrets` table stands for: the row must have
/// three values, and its second must be one of the five names.
pub open spec fn secret_from_row_spec(row: Seq<DatabaseParam>) -> Option<(SecretKind, Seq<char>)> {
    if row.len() != 3 {
        None
    } else {
        secret_from_entry(param_text(row[1]), param_text(row[2]))
    }
}

/// The last row of `rows` that stands for a playlist, read as one.
pub open spec fn last_playlist(rows: Seq<Seq<DatabaseParam>>) -> Option<(usize, Seq<char>)>
    decreases rows.len(),
{
    if rows.len() == 0 {
        None
    } else {
        match playlist_from_row_spec(rows.last()) {
            Some(p) => Some(p),
            None => last_playlist(rows.drop_last()),
        }
    }
}

/// The last row of `rows` that stands for a secret, read as one.
pub open spec fn last_secret(rows: Seq<Seq<DatabaseParam>>) -> Option<(SecretKind, Seq<char>)>
    decreases rows.len(),
{
    if rows.len() == 0 {
        None
    } else {
        match secret_from_row_spec(rows.last()) {
            Some(p) => Some(p),
            None => last_secret(rows.drop_last()),
        }
    }
}

/// The rows of `rows` that stand for songs, read as songs, in order.
pub open spec fn songs_from_rows(rows: Seq<Seq<DatabaseParam>>) -> Seq<(usize, Seq<char>, Seq<char>, Seq<char>, Seq<char>, usize)>
    decreases rows.len(),
{
    if rows.len() == 0 {
        Seq::empty()
    } else {
        let init = songs_from_rows(rows.drop_last());
        match song_from_row_spec(rows.last()) {
            Some(s) => init.push(s),
            None => init,
        }
    }
}

/// The rows of a list of row vectors.
pub open spec fn rows_view(rows: Seq<Vec<DatabaseParam>>) -> Seq<Seq<DatabaseParam>> {
    rows.map_values(|r: Vec<DatabaseParam>| r@)
}

/// A statement with its values.
fn statement(query: &'static str, params: Vec<DatabaseParam>) -> (r: Statement)
    ensures
        r.query == query,
        r.params.values() == params@,
{
    Statement { query, params: DatabaseParams::new(params) }
}

/// The builders of the backend's statements and the readers of its rows.
pub struct DatabaseInterface;

impl DatabaseInterface {
    /// The statements that create the four tables.
    pub fn create_tables() -> (r: Vec<Statement>)
        ensures
            r@.len() == 4,
            r@[0].query == CREATE_SONG_TABLE,
            r@[1].query == CREATE_PLAYLIST_TABLE,
            r@[2].query == CREATE_PLAYLIST_ENTRIES_TABLE,
            r@[3].query == CREATE_SECRETS_TABLE,
            forall|i: int| 0 <= i < 4 ==> (#[trigger] r@[i]).params.values().len() == 0,
    {
        let mut r = Vec::new();
        r.push(Statement { query: CREATE_SONG_TABLE, params: DatabaseParams::empty() });
        r.push(Statement { query: CREATE_PLAYLIST_TABLE, params: DatabaseParams::empty() });
        r.push(Statement { query: CREATE_PLAYLIST_ENTRIES_TABLE, params: DatabaseParams::empty() });
        r.push(Statement { query: CREATE_SECRETS_TABLE, params: DatabaseParams::empty() });
        r
    }

    /// The statement that takes a song out of a playlist.
    pub fn remove_song_from_playlist(song_id: usize, playlist_id: usize) -> (r: Statement)
        ensures
            statement_view(r) == (REMOVE_SONG_FROM_PLAYLIST, seq![ParamView::Int(song_id), ParamView::Int(playlist_id)]),
    {
        let r = statement(REMOVE_SONG_FROM_PLAYLIST, vec![DatabaseParam::Usize(song_id), DatabaseParam::Usize(playlist_id)]);
        assert(statement_view(r).1 =~= seq![ParamView::Int(song_id), ParamView::Int(playlist_id)]);
        r
    }

    /// The statements that delete a playlist: first its entries, then the
    /// playlist.
    pub fn delete_playlist(playlist_id: usize) -> (r: (Statement, Statement))
        ensures
            statement_view(r.0) == (REMOVE_ALL_FROM_PLAYLIST, seq![ParamView::Int(playlist_id)]),
            statement_view(r.1) == (REMOVE_PLAYLIST, seq![ParamView::Int(playlist_id)]),
    {
        let a = statement(REMOVE_ALL_FROM_PLAYLIST, vec![DatabaseParam::Usize(playlist_id)]);
        let b = statement(REMOVE_PLAYLIST, vec![DatabaseParam::Usize(playlist_id)]);
        assert(statement_view(a).1 =~= seq![ParamView::Int(playlist_id)]);
        assert(statement_view(b).1 =~= seq![ParamView::Int(playlist_id)]);
        (a, b)
    }

    /// The song a row of the `Songs` table stands for, not yet downloaded.
    pub fn construct_song(row: &Vec<DatabaseParam>) -> (r: Option<Song>)
        ensures
            match r {
                Some(s) => song_from_row_spec(row@) == Some(song_fields(s)) && s.music_path is None
                    && s.album is Some && s.duration == (Length { secs: param_usize(row@[5]) as u64, nanos: 0 }),
                None => song_from_row_spec(row@) is None,
            },
    {
        if row.len() != 6 {
            return None;
        }
        let secs = row[5].usize();
        Some(Song::new(
            row[0].usize(),
            row[1].string(),
            row[2].string(),
            row[3].string(),
            Some(row[4].string()),
            Length::from_secs(secs as u64),
        ))
    }

    /// The playlist a row of the `Playlists` table stands for.
    pub fn construct_playlist(row: Vec<DatabaseParam>) -> (r: Option<Playlist>)
        ensures
            match r {
                Some(p) => playlist_from_row_spec(row@) == Some((p.id, p.name@)),
                None => playlist_from_row_spec(row@) is None,
            },
    {
        if row.len() != 2 {
            None
        } else {
            Some(Playlist { id: row[0].usize(), name: row[1].string() })
        }
    }

    /// The songs that rows of the `Songs` table stand for, in order.
    pub fn construct_songs(rows: &Vec<Vec<DatabaseParam>>) -> (r: Vec<Song>)
        ensures
            r@.map_values(|s: Song| song_fields(s)) == songs_from_rows(rows_view(rows@)),
    {
        let ghost rv = rows_view(rows@);
        let mut r: Vec<Song> = Vec::new();
        let mut i: usize = 0;
        while i < rows.len()
            invariant
                i <= rows.len(),
                rv == rows_view(rows@),
                r@.map_values(|s: Song| song_fields(s)) == songs_from_rows(rv.take(i as int)),
            decreases rows.len() - i,
        {
            assert(rv.take(i + 1).drop_last() =~= rv.take(i as int));
            assert(rv.take(i + 1).last() == rows@[i as int]@);
            let ghost before = r@;
            match Self::construct_song(&rows[i]) {
                Some(s) => {
                    r.push(s);
                    assert(r@.map_values(|s: Song| song_fields(s)) =~= before.map_values(
                        |s: Song| song_fields(s),
                    ).push(song_fields(r@.last())));
                },
                None => {},
            }
            i = i + 1;
        }
        assert(rv.take(rows.len() as int) =~= rv);
        r
    }

    /// The statement that lists every song.
    pub fn select_all_songs() -> (r: Statement)
        ensures
            statement_view(r) == (SELECT_ALL_SONGS, Seq::<ParamView>::empty()),
    {
        let r = Statement { query: SELECT_ALL_SONGS, params: DatabaseParams::empty() };
        assert(statement_view(r).1 =~= Seq::<ParamView>::empty());
        r
    }

    /// The statement that stores a song; the database answers with its new
    /// id. It does not check for duplicates.
    pub fn insert_song(song: &Song) -> (r: Statement)
        ensures
            statement_view(r) == (INSERT_SONG, song_params(*song)),
    {
        let album = match &song.album {
            Some(a) => a.clone(),
            None => String::from_str("none"),
        };
        let r = statement(INSERT_SONG, vec![
            DatabaseParam::String(song.yt_id.clone()),
            DatabaseParam::String(song.title.clone()),
            DatabaseParam::String(song.artist.clone()),
            DatabaseParam::String(album),
            DatabaseParam::Usize(song.duration.secs as usize),
        ]);
        assert(statement_view(r).1 =~= song_params(*song));
        r
    }

    /// The statement that stores a playlist; the database answers with its
    /// new id. It does not check for duplicates.
    pub fn insert_playlist(playlist: &Playlist) -> (r: Statement)
        ensures
            statement_view(r) == (INSERT_PLAYLIST, seq![ParamView::Text(playlist.name@)]),
    {
        let r = statement(INSERT_PLAYLIST, vec![DatabaseParam::String(playlist.name.clone())]);
        assert(statement_view(r).1 =~= seq![ParamView::Text(playlist.name@)]);
        r
    }

    /// The playlist after its insertion: it takes the new id when the
    /// database gave one.
    pub fn inserted_playlist(playlist: Playlist, id: Option<usize>) -> (r: Playlist)
        ensures
            r.name == playlist.name,
            r.id == match id {
                Some(i) => i,
                None => playlist.id,
            },
    {
        let mut p = playlist;
        match id {
            Some(i) => {
                p.id = i;
            },
            None => {},
        }
        p
    }

    /// The statement that renames a playlist: the new title fills the first
    /// placeholder and the playlist's id the second.
    pub fn update_playlist_name(playlist: &Playlist) -> (r: Statement)
        ensures
            statement_view(r) == (UPDATE_PLAYLIST_NAME, seq![ParamView::Text(playlist.name@), ParamView::Int(playlist.id)]),
    {
        let r = statement(UPDATE_PLAYLIST_NAME, vec![
            DatabaseParam::String(playlist.name.clone()),
            DatabaseParam::Usize(playlist.id),
        ]);
        assert(statement_view(r).1 =~= seq![ParamView::Text(playlist.name@), ParamView::Int(playlist.id)]);
        r
    }

    /// The statement that adds a song to a playlist.
    pub fn insert_playlist_entry(song_id: usize, playlist_id: usize) -> (r: Statement)
        ensures
            statement_view(r) == (INSERT_ENTRY, seq![ParamView::Int(playlist_id), ParamView::Int(song_id)]),
    {
        let r = statement(INSERT_ENTRY, vec![DatabaseParam::Usize(playlist_id), DatabaseParam::Usize(song_id)]);
        assert(statement_view(r).1 =~= seq![ParamView::Int(playlist_id), ParamView::Int(song_id)]);
        r
    }

    /// The statement that looks a playlist up by id.
    pub fn select_playlist_by_id(playlist_id: usize) -> (r: Statement)
        ensures
            statement_view(r) == (SELECT_PLAYLIST_BY_ID, seq![ParamView::Int(playlist_id)]),
    {
        let r = statement(SELECT_PLAYLIST_BY_ID, vec![DatabaseParam::Usize(playlist_id)]);
        assert(statement_view(r).1 =~= seq![ParamView::Int(playlist_id)]);
        r
    }

    /// The playlist found by a lookup: the last row that stands for one.
    pub fn get_playlist_by_id(rows: Vec<Vec<DatabaseParam>>) -> (r: Option<Playlist>)
        ensures
            match r {
                Some(p) => last_playlist(rows_view(rows@)) == Some((p.id, p.name@)),
                None => last_playlist(rows_view(rows@)) is None,
            },
    {
        let ghost rv = rows_view(rows@);
        let mut remaining = rows;
        let ghost all = remaining@;
        assert(rv.take(remaining@.len() as int) =~= rv);
        assert(all.take(all.len() as int) =~= all);
        while remaining.len() > 0
            invariant
                rv == rows_view(all),
                rv == rows_view(rows@),
                remaining@ == all.take(remaining@.len() as int),
                remaining@.len() <= all.len(),
                last_playlist(rv) == last_playlist(rv.take(remaining@.len() as int)),
            decreases remaining.len(),
        {
            let ghost n = remaining@.len() as int;
            let row = remaining.pop().unwrap();
            assert(rv.take(n).drop_last() =~= rv.take(n - 1));
            assert(rv.take(n).last() == row@);
            assert(remaining@ =~= all.take(n - 1));
            match Self::construct_playlist(row) {
                Some(p) => {
                    return Some(p);
                },
                None => {},
            }
        }
        assert(rv.take(0) =~= Seq::<Seq<DatabaseParam>>::empty());
        None
    }

    /// The statement that lists every playlist.
    pub fn select_all_playlists() -> (r: Statement)
        ensures
            statement_view(r) == (SELECT_ALL_PLAYLISTS, Seq::<ParamView>::empty()),
    {
        let r = Statement { query: SELECT_ALL_PLAYLISTS, params: DatabaseParams::empty() };
        assert(statement_view(r).1 =~= Seq::<ParamView>::empty());
        r
    }

    /// The statement that lists the songs of a playlist.
    pub fn select_all_songs_in_playlist(playlist_id: usize) -> (r: Statement)
        ensures
            statement_view(r) == (SELECT_ALL_SONGS_IN_PLAYLIST, seq![ParamView::Int(playlist_id)]),
    {
        let r = statement(SELECT_ALL_SONGS_IN_PLAYLIST, vec![DatabaseParam::Usize(playlist_id)]);
        assert(statement_view(r).1 =~= seq![ParamView::Int(playlist_id)]);
        r
    }

    /// The statement that lists the songs of a playlist whose title, artist
    /// or album contains `query`.
    pub fn search_playlist(playlist_id: usize, query: String) -> (r: Statement)
        ensures
            statement_view(r) == (
                SEARCH_PLAYLIST,
                seq![
                    ParamView::Int(playlist_id),
                    ParamView::Text(like_pattern(query@)),
                    ParamView::Text(like_pattern(query@)),
                    ParamView::Text(like_pattern(query@)),
                ],
            ),
    {
        let mut pattern = String::new();
        push_char(&mut pattern, '%');
        push_str(&mut pattern, query.as_str());
        push_char(&mut pattern, '%');
        assert(pattern@ =~= like_pattern(query@));
        let r = statement(SEARCH_PLAYLIST, vec![
            DatabaseParam::Usize(playlist_id),
            DatabaseParam::String(pattern.clone()),
            DatabaseParam::String(pattern.clone()),
            DatabaseParam::String(pattern),
        ]);
        assert(statement_view(r).1 =~= seq![
            ParamView::Int(playlist_id),
            ParamView::Text(like_pattern(query@)),
            ParamView::Text(like_pattern(query@)),
            ParamView::Text(like_pattern(query@)),
        ]);
        r
    }

    /// The statement that looks songs up by exact title.
    pub fn select_song_by_title(title: String) -> (r: Statement)
        ensures
            statement_view(r) == (SELECT_SONG_BY_TITLE, seq![ParamView::Text(title@)]),
    {
        let ghost t = title@;
        let r = statement(SELECT_SONG_BY_TITLE, vec![DatabaseParam::String(title)]);
        assert(statement_view(r).1 =~= seq![ParamView::Text(t)]);
        r
    }

    /// The song found by a title lookup: the last row that stands for one.
    pub fn song_by_title(rows: &Vec<Vec<DatabaseParam>>) -> (r: Option<Song>)
        ensures
            match r {
                Some(s) => songs_from_rows(rows_view(rows@)).len() > 0 && song_fields(s)
                    == songs_from_rows(rows_view(rows@)).last(),
                None => songs_from_rows(rows_view(rows@)).len() == 0,
            },
    {
        let mut songs = Self::construct_songs(rows);
        let ghost all = songs@;
        let r = songs.pop();
        proof {
            if all.len() > 0 {
                assert(all.map_values(|s: Song| song_fields(s)).last() == song_fields(all.last()));
            }
        }
        r
    }

    /// The statement that looks a secret up by name.
    pub fn select_secret_by_name(name: String) -> (r: Statement)
        ensures
            statement_view(r) == (SELECT_SECRET_BY_NAME, seq![ParamView::Text(name@)]),
    {
        let ghost t = name@;
        let r = statement(SELECT_SECRET_BY_NAME, vec![DatabaseParam::String(name)]);
        assert(statement_view(r).1 =~= seq![ParamView::Text(t)]);
        r
    }

    /// The secret a row of the `Secrets` table stands for.
    pub fn secret_from_row(row: &Vec<DatabaseParam>) -> (r: Option<Secret>)
        ensures
            opt_secret_view(r) == secret_from_row_spec(row@),
    {
        if row.len() != 3 {
            None
        } else {
            let name = row[1].string();
            Secret::from_entry(&name, row[2].string())
        }
    }

    /// The secret found by a lookup: the last row that stands for one.
    pub fn select_secret_by_name_result(rows: &Vec<Vec<DatabaseParam>>) -> (r: Option<Secret>)
        ensures
            opt_secret_view(r) == last_secret(rows_view(rows@)),
    {
        let ghost rv = rows_view(rows@);
        let mut i: usize = rows.len();
        assert(rv.take(i as int) =~= rv);
        while i > 0
            invariant
                i <= rows.len(),
                rv == rows_view(rows@),
                last_secret(rv) == last_secret(rv.take(i as int)),
            decreases i,
        {
            assert(rv.take(i as int).drop_last() =~= rv.take(i - 1));
            assert(rv.take(i as int).last() == rows@[i - 1]@);
            match Self::secret_from_row(&rows[i - 1]) {
                Some(s) => {
                    return Some(s);
                },
                None => {},
            }
            i = i - 1;
        }
        assert(rv.take(0) =~= Seq::<Seq<DatabaseParam>>::empty());
        None
    }

    /// The statements that store a secret, replacing any stored under the
    /// same name: first the removal, then the insertion.
    pub fn insert_or_update_secret(name: String, value: String) -> (r: (Statement, Statement))
        ensures
            statement_view(r.0) == (REMOVE_SECRET_BY_NAME, seq![ParamView::Text(name@)]),
            statement_view(r.1) == (INSERT_SECRET, seq![ParamView::Text(name@), ParamView::Text(value@)]),
    {
        let a = statement(REMOVE_SECRET_BY_NAME, vec![DatabaseParam::String(name.clone())]);
        let ghost n = name@;
        let ghost v = value@;
        let b = statement(INSERT_SECRET, vec![DatabaseParam::String(name), DatabaseParam::String(value)]);
        assert(statement_view(a).1 =~= seq![ParamView::Text(n)]);
        assert(statement_view(b).1 =~= seq![ParamView::Text(n), ParamView::Text(v)]);
        (a, b)
    }

    /// The statement that looks songs up by video id.
    pub fn select_song_by_youtube_id(id: String) -> (r: Statement)
        ensures
            statement_view(r) == (SELECT_SONG_BY_YOUTUBE_ID, seq![ParamView::Text(id@)]),
    {
        let ghost t = id@;
        let r = statement(SELECT_SONG_BY_YOUTUBE_ID, vec![DatabaseParam::String(id)]);
        assert(statement_view(r).1 =~= seq![ParamView::Text(t)]);
        r
    }

    /// Whether the answer to a lookup by video id found no song: no row came
    /// before the end of the answer or a failure.
    pub fn blocking_is_unique(answer: &Vec<ItemStream>) -> (unique: bool)
        ensures
            unique == !row_before_end(answer@),
    {
        let mut unique = true;
        let mut ended = false;
        let mut i: usize = 0;
        while i < answer.len() && !ended
            invariant
                i <= answer.len(),
                ended ==> i < answer.len() && !(answer@[i as int] is Value),
                unique == (i == 0),
                forall|j: int| 0 <= j < i ==> (#[trigger] answer@[j]) is Value,
            decreases (answer.len() - i) * 2 + if ended { 0int } else { 1int },
        {
            match &answer[i] {
                ItemStream::End => {
                    ended = true;
                },
                ItemStream::Error => {
                    ended = true;
                },
                ItemStream::Value(_) => {
                    unique = false;
                    i = i + 1;
                },
            }
        }
        unique
    }

    /// The id of a stored song, from the database's answer to its insertion;
    /// an error when the insertion failed or no answer came.
    pub fn blocking_insert_song(reply: Option<InsertMessage>) -> (r: Result<usize, ()>)
        ensures
            r == match reply {
                Some(InsertMessage::Success(id)) => Ok::<usize, ()>(id),
                _ => Err(()),
            },
    {
        match reply {
            Some(InsertMessage::Success(id)) => Ok(id),
            _ => Err(()),
        }
    }
}

} // verus!

verus! {

/// The text a song's album is stored as: the album, or `none` without one.
pub open spec fn stored_album(s: Song) -> Seq<char> {
    match s.album {
        Some(a) => a@,
        None => "none"@,
    }
}

/// A row of the `Songs` table that holds an id followed by the values
/// `insert_song` bound for a song reads back as that song's fields, under
/// that id; a song without an album reads back with the album `none`.
pub proof fn law_song_row_reads_back(s: Song, id: usize, row: Seq<DatabaseParam>)
    requires
        row.len() == 6,
        param_view(row[0]) == ParamView::Int(id),
        row.subrange(1, 6).map_values(|p: DatabaseParam| param_view(p)) == song_params(s),
    ensures
        song_from_row_spec(row) == Some((id, s.yt_id@, s.title@, s.artist@, stored_album(s), s.duration.secs as usize)),
{
    let v = row.subrange(1, 6).map_values(|p: DatabaseParam| param_view(p));
    assert(v[0] == param_view(row[1]));
    assert(v[1] == param_view(row[2]));
    assert(v[2] == param_view(row[3]));
    assert(v[3] == param_view(row[4]));
    assert(v[4] == param_view(row[5]));
}

/// A row of the `Playlists` table that holds an id and the name
/// `insert_playlist` bound reads back as that playlist under that id.
pub proof fn law_playlist_row_reads_back(p: Playlist, id: usize, row: Seq<DatabaseParam>)
    requires
        row.len() == 2,
        param_view(row[0]) == ParamView::Int(id),
        param_view(row[1]) == ParamView::Text(p.name@),
    ensures
        playlist_from_row_spec(row) == Some((id, p.name@)),
{
}

/// A row of the `Secrets` table that holds an id, then the name and the
/// value a secret is stored under, reads back as that secret.
pub proof fn law_secret_row_reads_back(s: Secret, id: usize, row: Seq<DatabaseParam>)
    requires
        row.len() == 3,
        param_view(row[0]) == ParamView::Int(id),
        param_view(row[1]) == ParamView::Text(kind_name(secret_view(s).0)),
        param_view(row[2]) == ParamView::Text(secret_view(s).1),
    ensures
        secret_from_row_spec(row) == Some(secret_view(s)),
{
    law_secret_roundtrip(s);
}

/// A row of the `Secrets` table, as plain values.
pub struct SecretRow {
    pub id: usize,
    pub name: Seq<char>,
    pub value: Seq<char>,
}

/// The values of a row of the `Secrets` table, as a lookup answers them.
pub open spec fn secret_row_view(r: SecretRow) -> Seq<ParamView> {
    seq![ParamView::Int(r.id), ParamView::Text(r.name), ParamView::Text(r.value)]
}

/// Whether a row is stored under `name`.
pub open spec fn named(name: Seq<char>) -> spec_fn(SecretRow) -> bool {
    |r: SecretRow| r.name == name
}

/// Whether a row is stored under another name than `name`.
pub open spec fn not_named(name: Seq<char>) -> spec_fn(SecretRow) -> bool {
    |r: SecretRow| r.name != name
}

/// The `Secrets` table after one of the statements on it, with the values
/// bound to it: the removal by name drops the rows stored under the name;
/// the insertion appends a row with the bound name and value under the id
/// the database gives it (`new_id`). Any other statement leaves the table.
pub open spec fn secrets_after(table: Seq<SecretRow>, st: (&'static str, Seq<ParamView>), new_id: usize) -> Seq<SecretRow> {
    if st.0 == REMOVE_SECRET_BY_NAME && st.1.len() == 1 {
        match st.1[0] {
            ParamView::Text(n) => table.filter(not_named(n)),
            _ => table,
        }
    } else if st.0 == INSERT_SECRET && st.1.len() == 2 {
        match (st.1[0], st.1[1]) {
            (ParamView::Text(n), ParamView::Text(v)) => table.push(SecretRow { id: new_id, name: n, value: v }),
            _ => table,
        }
    } else {
        table
    }
}

/// What a lookup by name answers on the `Secrets` table: the rows stored
/// under the name, in order.
pub open spec fn secrets_named(table: Seq<SecretRow>, name: Seq<char>) -> Seq<Seq<ParamView>> {
    table.filter(named(name)).map_values(|r: SecretRow| secret_row_view(r))
}

/// Storing a secret replaces what was stored under its name: on any
/// `Secrets` table, after the removal and then the insertion that
/// `insert_or_update_secret` gives for `name` and `value`, whatever id the
/// database gives the new row, a lookup by the name answers exactly one row,
/// with that value, and reading the answer gives the secret stored under
/// that name (none when the name is not a secret's).
pub proof fn law_stored_secret_reads_back(
    table: Seq<SecretRow>,
    name: Seq<char>,
    value: Seq<char>,
    new_id: usize,
    rows: Seq<Seq<DatabaseParam>>,
)
    requires
        rows.map_values(|r: Seq<DatabaseParam>| r.map_values(|p: DatabaseParam| param_view(p))) == secrets_named(
            secrets_after(
                secrets_after(table, (REMOVE_SECRET_BY_NAME, seq![ParamView::Text(name)]), new_id),
                (INSERT_SECRET, seq![ParamView::Text(name), ParamView::Text(value)]),
                new_id,
            ),
            name,
        ),
    ensures
        secrets_named(
            secrets_after(
                secrets_after(table, (REMOVE_SECRET_BY_NAME, seq![ParamView::Text(name)]), new_id),
                (INSERT_SECRET, seq![ParamView::Text(name), ParamView::Text(value)]),
                new_id,
            ),
            name,
        ) == seq![seq![ParamView::Int(new_id), ParamView::Text(name), ParamView::Text(value)]],
        rows.len() == 1,
        last_secret(rows) == secret_from_entry(name, value),
{
    broadcast use vstd::seq_lib::group_filter_ensures;
    let removed = table.filter(not_named(name));
    let first = secrets_after(table, (REMOVE_SECRET_BY_NAME, seq![ParamView::Text(name)]), new_id);
    assert(first == removed);
    let row = SecretRow { id: new_id, name, value };
    let second = secrets_after(first, (INSERT_SECRET, seq![ParamView::Text(name), ParamView::Text(value)]), new_id);
    assert(second == removed.push(row));
    assert forall|i: int| 0 <= i < removed.len() implies !named(name)(#[trigger] removed[i]) by {
        assert(not_named(name)(removed[i]));
    }
    assert(removed.all(|x: SecretRow| !named(name)(x)));
    removed.lemma_all_neg_filter_empty(named(name));
    removed.lemma_filter_push(row, named(name));
    assert(second.filter(named(name)) =~= seq![row]);
    assert(secrets_named(second, name) =~= seq![secret_row_view(row)]);
    let rv = rows.map_values(|r: Seq<DatabaseParam>| r.map_values(|p: DatabaseParam| param_view(p)));
    assert(rv.len() == 1);
    assert(rv[0] == secret_row_view(row));
    let r0 = rows[0];
    assert(r0.map_values(|p: DatabaseParam| param_view(p)).len() == 3);
    assert(param_view(r0[1]) == ParamView::Text(name));
    assert(param_view(r0[2]) == ParamView::Text(value));
    assert(param_text(r0[1]) == name);
    assert(param_text(r0[2]) == value);
    assert(rows.drop_last() =~= Seq::<Seq<DatabaseParam>>::empty());
    assert(r0.len() == 3);
    assert(rows.last() == r0);
    assert(secret_from_row_spec(r0) == secret_from_entry(name, value));
    assert(last_secret(rows.drop_last()) is None);
}

} // verus!

verus! {

/// The number of times `c` occurs among the first `n` characters of `s`.
pub open spec fn count_upto(s: Seq<char>, c: char, n: int) -> nat
    decreases n,
{
    if n <= 0 {
        0
    } else {
        count_upto(s, c, n - 1) + if s[n - 1] == c {
            1nat
        } else {
            0nat
        }
    }
}

/// The number of times `c` occurs in `s`.
pub open spec fn char_count(s: Seq<char>, c: char) -> nat {
    count_upto(s, c, s.len() as int)
}

/// The number of placeholders of a statement's text.
pub open spec fn placeholders(query: &'static str) -> nat {
    char_count(query@, '?')
}

/// The number of values an insertion lists, or of columns a table
/// declares: one more than the commas between them.
pub open spec fn listed(query: &'static str) -> nat {
    char_count(query@, ',') + 1
}

/// The placeholders and commas of `INSERT_SONG`.
proof fn lemma_shape_insert_song()
    ensures
        char_count(INSERT_SONG@, '?') == 5,
        char_count(INSERT_SONG@, ',') == 5,
{
    reveal_with_fuel(count_upto, 57);
    reveal_strlit("
    INSERT INTO Songs
    VALUES(null, ?, ?, ?, ?, ?)
");
}

/// The placeholders and commas of `INSERT_PLAYLIST`.
proof fn lemma_shape_insert_playlist()
    ensures
        char_count(INSERT_PLAYLIST@, '?') == 1,
        char_count(INSERT_PLAYLIST@, ',') == 1,
{
    reveal_with_fuel(count_upto, 49);
    reveal_strlit("
    INSERT INTO Playlists
    VALUES(null, ?)
");
}

/// The placeholders and commas of `INSERT_ENTRY`.
proof fn lemma_shape_insert_entry()
    ensures
        char_count(INSERT_ENTRY@, '?') == 2,
        char_count(INSERT_ENTRY@, ',') == 1,
{
    reveal_with_fuel(count_upto, 44);
    reveal_strlit("
    INSERT INTO Entries
    VALUES(?, ?)
");
}

/// The placeholders and commas of `INSERT_SECRET`.
proof fn lemma_shape_insert_secret()
    ensures
        char_count(INSERT_SECRET@, '?') == 2,
        char_count(INSERT_SECRET@, ',') == 2,
{
    reveal_with_fuel(count_upto, 50);
    reveal_strlit("
    INSERT INTO Secrets
    VALUES(null, ?, ?)
");
}

/// The placeholders and commas of `UPDATE_PLAYLIST_NAME`.
proof fn lemma_shape_update_playlist_name()
    ensures
        char_count(UPDATE_PLAYLIST_NAME@, '?') == 2,
        char_count(UPDATE_PLAYLIST_NAME@, ',') == 0,
{
    reveal_with_fuel(count_upto, 45);
    reveal_strlit("UPDATE Playlists SET title = ? WHERE id = ?");
}

/// The placeholders and commas of `REMOVE_SONG_FROM_PLAYLIST`.
proof fn lemma_shape_remove_song_from_playlist()
    ensures
        char_count(REMOVE_SONG_FROM_PLAYLIST@, '?') == 2,
        char_count(REMOVE_SONG_FROM_PLAYLIST@, ',') == 0,
{
    reveal_with_fuel(count_upto, 59);
    reveal_strlit("DELETE FROM Entries WHERE song_id = ? AND playlist_id = ?");
}

/// The placeholders and commas of `REMOVE_ALL_FROM_PLAYLIST`.
proof fn lemma_shape_remove_all_from_playlist()
    ensures
        char_count(REMOVE_ALL_FROM_PLAYLIST@, '?') == 1,
        char_count(REMOVE_ALL_FROM_PLAYLIST@, ',') == 0,
{
    reveal_with_fuel(count_upto, 43);
    reveal_strlit("DELETE FROM Entries WHERE playlist_id = ?");
}

/// The placeholders and commas of `REMOVE_PLAYLIST`.
proof fn lemma_shape_remove_playlist()
    ensures
        char_count(REMOVE_PLAYLIST@, '?') == 1,
        char_count(REMOVE_PLAYLIST@, ',') == 0,
{
    reveal_with_fuel(count_upto, 36);
    reveal_strlit("DELETE FROM Playlists WHERE id = ?");
}

/// The placeholders and commas of `REMOVE_SECRET_BY_NAME`.
proof fn lemma_shape_remove_secret_by_name()
    ensures
        char_count(REMOVE_SECRET_BY_NAME@, '?') == 1,
        char_count(REMOVE_SECRET_BY_NAME@, ',') == 0,
{
    reveal_with_fuel(count_upto, 36);
    reveal_strlit("DELETE FROM Secrets WHERE name = ?");
}

/// The placeholders and commas of `SELECT_SONG_BY_YOUTUBE_ID`.
proof fn lemma_shape_select_song_by_youtube_id()
    ensures
        char_count(SELECT_SONG_BY_YOUTUBE_ID@, '?') == 1,
        char_count(SELECT_SONG_BY_YOUTUBE_ID@, ',') == 0,
{
    reveal_with_fuel(count_upto, 37);
    reveal_strlit("SELECT * FROM Songs WHERE yt_id = ?");
}

/// The placeholders and commas of `SELECT_PLAYLIST_BY_ID`.
proof fn lemma_shape_select_playlist_by_id()
    ensures
        char_count(SELECT_PLAYLIST_BY_ID@, '?') == 1,
        char_count(SELECT_PLAYLIST_BY_ID@, ',') == 0,
{
    reveal_with_fuel(count_upto, 38);
    reveal_strlit("SELECT * FROM Playlists WHERE id = ?");
}

/// The placeholders and commas of `SELECT_ALL_SONGS_IN_PLAYLIST`.
proof fn lemma_shape_select_all_songs_in_playlist()
    ensures
        char_count(SELECT_ALL_SONGS_IN_PLAYLIST@, '?') == 1,
        char_count(SELECT_ALL_SONGS_IN_PLAYLIST@, ',') == 0,
{
    reveal_strlit("
    SELECT Songs.* FROM Songs
    INNER JOIN Entries ON Songs.id = Entries.song_id
    WHERE Entries.playlist_id = ?;
");
    assert(count_upto(SELECT_ALL_SONGS_IN_PLAYLIST@, '?', 40) == 0) by {
        reveal_with_fuel(count_upto, 42);
        reveal_strlit("
    SELECT Songs.* FROM Songs
    INNER JOIN Entries ON Songs.id = Entries.song_id
    WHERE Entries.playlist_id = ?;
");
    }
    assert(count_upto(SELECT_ALL_SONGS_IN_PLAYLIST@, '?', 80) == 0) by {
        reveal_with_fuel(count_upto, 42);
        reveal_strlit("
    SELECT Songs.* FROM Songs
    INNER JOIN Entries ON Songs.id = Entries.song_id
    WHERE Entries.playlist_id = ?;
");
    }
    assert(count_upto(SELECT_ALL_SONGS_IN_PLAYLIST@, '?', 119) == 1) by {
        reveal_with_fuel(count_upto, 42);
        reveal_strlit("
    SELECT Songs.* FROM Songs
    INNER JOIN Entries ON Songs.id = Entries.song_id
    WHERE Entries.playlist_id = ?;
");
    }
    assert(count_upto(SELECT_ALL_SONGS_IN_PLAYLIST@, ',', 40) == 0) by {
        reveal_with_fuel(count_upto, 42);
        reveal_strlit("
    SELECT Songs.* FROM Songs
    INNER JOIN Entries ON Songs.id = Entries.song_id
    WHERE Entries.playlist_id = ?;
");
    }
    assert(count_upto(SELECT_ALL_SONGS_IN_PLAYLIST@, ',', 80) == 0) by {
        reveal_with_fuel(count_upto, 42);
        reveal_strlit("
    SELECT Songs.* FROM Songs
    INNER JOIN Entries ON Songs.id = Entries.song_id
    WHERE Entries.playlist_id = ?;
");
    }
    assert(count_upto(SELECT_ALL_SONGS_IN_PLAYLIST@, ',', 119) == 0) by {
        reveal_with_fuel(count_upto, 42);
        reveal_strlit("
    SELECT Songs.* FROM Songs
    INNER JOIN Entries ON Songs.id = Entries.song_id
    WHERE Entries.playlist_id = ?;
");
    }
}

/// The placeholders of `SEARCH_PLAYLIST`.
proof fn lemma_shape_search_playlist()
    ensures
        char_count(SEARCH_PLAYLIST@, '?') == 4,
{
    reveal_strlit("
    SELECT Songs.* FROM Songs
    INNER JOIN Entries ON Songs.id = Entries.song_id
    WHERE Entries.playlist_id = ?
    AND (Songs.title LIKE ? OR Songs.artist LIKE ? OR Songs.album LIKE ?);
");
    assert(count_upto(SEARCH_PLAYLIST@, '?', 40) == 0) by {
        reveal_with_fuel(count_upto, 42);
        reveal_strlit("
    SELECT Songs.* FROM Songs
    INNER JOIN Entries ON Songs.id = Entries.song_id
    WHERE Entries.playlist_id = ?
    AND (Songs.title LIKE ? OR Songs.artist LIKE ? OR Songs.album LIKE ?);
");
    }
    assert(count_upto(SEARCH_PLAYLIST@, '?', 80) == 0) by {
        reveal_with_fuel(count_upto, 42);
        reveal_strlit("
    SELECT Songs.* FROM Songs
    INNER JOIN Entries ON Songs.id = Entries.song_id
    WHERE Entries.playlist_id = ?
    AND (Songs.title LIKE ? OR Songs.artist LIKE ? OR Songs.album LIKE ?);
");
    }
    assert(count_upto(SEARCH_PLAYLIST@, '?', 120) == 1) by {
        reveal_with_fuel(count_upto, 42);
        reveal_strlit("
    SELECT Songs.* FROM Songs
    INNER JOIN Entries ON Songs.id = Entries.song_id
    WHERE Entries.playlist_id = ?
    AND (Songs.title LIKE ? OR Songs.artist LIKE ? OR Songs.album LIKE ?);
");
    }
    assert(count_upto(SEARCH_PLAYLIST@, '?', 160) == 2) by {
        reveal_with_fuel(count_upto, 42);
        reveal_strlit("
    SELECT Songs.* FROM Songs
    INNER JOIN Entries ON Songs.id = Entries.song_id
    WHERE Entries.playlist_id = ?
    AND (Songs.title LIKE ? OR Songs.artist LIKE ? OR Songs.album LIKE ?);
");
    }
    assert(count_upto(SEARCH_PLAYLIST@, '?', 193) == 4) by {
        reveal_with_fuel(count_upto, 42);
        reveal_strlit("
    SELECT Songs.* FROM Songs
    INNER JOIN Entries ON Songs.id = Entries.song_id
    WHERE Entries.playlist_id = ?
    AND (Songs.title LIKE ? OR Songs.artist LIKE ? OR Songs.album LIKE ?);
");
    }
}

/// The placeholders and commas of `SELECT_SONG_BY_TITLE`.
proof fn lemma_shape_select_song_by_title()
    ensures
        char_count(SELECT_SONG_BY_TITLE@, '?') == 1,
        char_count(SELECT_SONG_BY_TITLE@, ',') == 0,
{
    reveal_with_fuel(count_upto, 37);
    reveal_strlit("SELECT * FROM Songs WHERE title = ?");
}

/// The placeholders and commas of `SELECT_SECRET_BY_NAME`.
proof fn lemma_shape_select_secret_by_name()
    ensures
        char_count(SELECT_SECRET_BY_NAME@, '?') == 1,
        char_count(SELECT_SECRET_BY_NAME@, ',') == 0,
{
    reveal_with_fuel(count_upto, 38);
    reveal_strlit("SELECT * FROM Secrets WHERE name = ?");
}

/// The placeholders and commas of `SELECT_ALL_SONGS`.
proof fn lemma_shape_select_all_songs()
    ensures
        char_count(SELECT_ALL_SONGS@, '?') == 0,
        char_count(SELECT_ALL_SONGS@, ',') == 0,
{
    reveal_with_fuel(count_upto, 21);
    reveal_strlit("SELECT * FROM Songs");
}

/// The placeholders and commas of `SELECT_ALL_PLAYLISTS`.
proof fn lemma_shape_select_all_playlists()
    ensures
        char_count(SELECT_ALL_PLAYLISTS@, '?') == 0,
        char_count(SELECT_ALL_PLAYLISTS@, ',') == 0,
{
    reveal_with_fuel(count_upto, 25);
    reveal_strlit("SELECT * FROM Playlists");
}

/// The placeholders and commas of `CREATE_SONG_TABLE`.
proof fn lemma_shape_create_song_table()
    ensures
        char_count(CREATE_SONG_TABLE@, '?') == 0,
        char_count(CREATE_SONG_TABLE@, ',') == 5,
{
    reveal_strlit("
    CREATE TABLE IF NOT EXISTS Songs (
        id INTEGER PRIMARY KEY AUTOINCREMENT,
        yt_id TEXT NOT NULL,
        title TEXT NOT NULL,
        artist TEXT NOT NULL,
        album TEXT NOT NULL,
        duration INTEGER NOT NULL
    );
");
    assert(count_upto(CREATE_SONG_TABLE@, '?', 40) == 0) by {
        reveal_with_fuel(count_upto, 42);
        reveal_strlit("
    CREATE TABLE IF NOT EXISTS Songs (
        id INTEGER PRIMARY KEY AUTOINCREMENT,
        yt_id TEXT NOT NULL,
        title TEXT NOT NULL,
        artist TEXT NOT NULL,
        album TEXT NOT NULL,
        duration INTEGER NOT NULL
    );
");
    }
    assert(count_upto(CREATE_SONG_TABLE@, '?', 80) == 0) by {
        reveal_with_fuel(count_upto, 42);
        reveal_strlit("
    CREATE TABLE IF NOT EXISTS Songs (
        id INTEGER PRIMARY KEY AUTOINCREMENT,
        yt_id TEXT NOT NULL,
        title TEXT NOT NULL,
        artist TEXT NOT NULL,
        album TEXT NOT NULL,
        duration INTEGER NOT NULL
    );
");
    }
    assert(count_upto(CREATE_SONG_TABLE@, '?', 120) == 0) by {
        reveal_with_fuel(count_upto, 42);
        reveal_strlit("
    CREATE TABLE IF NOT EXISTS Songs (
        id INTEGER PRIMARY KEY AUTOINCREMENT,
        yt_id TEXT NOT NULL,
        title TEXT NOT NULL,
        artist TEXT NOT NULL,
        album TEXT NOT NULL,
        duration INTEGER NOT NULL
    );
");
    }
    assert(count_upto(CREATE_SONG_TABLE@, '?', 160) == 0) by {
        reveal_with_fuel(count_upto, 42);
        reveal_strlit("
    CREATE TABLE IF NOT EXISTS Songs (
        id INTEGER PRIMARY KEY AUTOINCREMENT,
        yt_id TEXT NOT NULL,
        title TEXT NOT NULL,
        artist TEXT NOT NULL,
        album TEXT NOT NULL,
        duration INTEGER NOT NULL
    );
");
    }
    assert(count_upto(CREATE_SONG_TABLE@, '?', 200) == 0) by {
        reveal_with_fuel(count_upto, 42);
        reveal_strlit("
    CREATE TABLE IF NOT EXISTS Songs (
        id INTEGER PRIMARY KEY AUTOINCREMENT,
        yt_id TEXT NOT NULL,
        title TEXT NOT NULL,
        artist TEXT NOT NULL,
        album TEXT NOT NULL,
        duration INTEGER NOT NULL
    );
");
    }
    assert(count_upto(CREATE_SONG_TABLE@, '?', 240) == 0) by {
        reveal_with_fuel(count_upto, 42);
        reveal_strlit("
    CREATE TABLE IF NOT EXISTS Songs (
        id INTEGER PRIMARY KEY AUTOINCREMENT,
        yt_id TEXT NOT NULL,
        title TEXT NOT NULL,
        artist TEXT NOT NULL,
        album TEXT NOT NULL,
        duration INTEGER NOT NULL
    );
");
    }
    assert(count_upto(CREATE_SONG_TABLE@, '?', 244) == 0) by {
        reveal_with_fuel(count_upto, 42);
        reveal_strlit("
    CREATE TABLE IF NOT EXISTS Songs (
        id INTEGER PRIMARY KEY AUTOINCREMENT,
        yt_id TEXT NOT NULL,
        title TEXT NOT NULL,
        artist TEXT NOT NULL,
        album TEXT NOT NULL,
        duration INTEGER NOT NULL
    );
");
    }
    assert(count_upto(CREATE_SONG_TABLE@, ',', 40) == 0) by {
        reveal_with_fuel(count_upto, 42);
        reveal_strlit("
    CREATE TABLE IF NOT EXISTS Songs (
        id INTEGER PRIMARY KEY AUTOINCREMENT,
        yt_id TEXT NOT NULL,
        title TEXT NOT NULL,
        artist TEXT NOT NULL,
        album TEXT NOT NULL,
        duration INTEGER NOT NULL
    );
");
    }
    assert(count_upto(CREATE_SONG_TABLE@, ',', 80) == 0) by {
        reveal_with_fuel(count_upto, 42);
        reveal_strlit("
    CREATE TABLE IF NOT EXISTS Songs (
        id INTEGER PRIMARY KEY AUTOINCREMENT,
        yt_id TEXT NOT NULL,
        title TEXT NOT NULL,
        artist TEXT NOT NULL,
        album TEXT NOT NULL,
        duration INTEGER NOT NULL
    );
");
    }
    assert(count_upto(CREATE_SONG_TABLE@, ',', 120) == 2) by {
        reveal_with_fuel(count_upto, 42);
        reveal_strlit("
    CREATE TABLE IF NOT EXISTS Songs (
        id INTEGER PRIMARY KEY AUTOINCREMENT,
        yt_id TEXT NOT NULL,
        title TEXT NOT NULL,
        artist TEXT NOT NULL,
        album TEXT NOT NULL,
        duration INTEGER NOT NULL
    );
");
    }
    assert(count_upto(CREATE_SONG_TABLE@, ',', 160) == 3) by {
        reveal_with_fuel(count_upto, 42);
        reveal_strlit("
    CREATE TABLE IF NOT EXISTS Songs (
        id INTEGER PRIMARY KEY AUTOINCREMENT,
        yt_id TEXT NOT NULL,
        title TEXT NOT NULL,
        artist TEXT NOT NULL,
        album TEXT NOT NULL,
        duration INTEGER NOT NULL
    );
");
    }
    assert(count_upto(CREATE_SONG_TABLE@, ',', 200) == 4) by {
        reveal_with_fuel(count_upto, 42);
        reveal_strlit("
    CREATE TABLE IF NOT EXISTS Songs (
        id INTEGER PRIMARY KEY AUTOINCREMENT,
        yt_id TEXT NOT NULL,
        title TEXT NOT NULL,
        artist TEXT NOT NULL,
        album TEXT NOT NULL,
        duration INTEGER NOT NULL
    );
");
    }
    assert(count_upto(CREATE_SONG_TABLE@, ',', 240) == 5) by {
        reveal_with_fuel(count_upto, 42);
        reveal_strlit("
    CREATE TABLE IF NOT EXISTS Songs (
        id INTEGER PRIMARY KEY AUTOINCREMENT,
        yt_id TEXT NOT NULL,
        title TEXT NOT NULL,
        artist TEXT NOT NULL,
        album TEXT NOT NULL,
        duration INTEGER NOT NULL
    );
");
    }
    assert(count_upto(CREATE_SONG_TABLE@, ',', 244) == 5) by {
        reveal_with_fuel(count_upto, 42);
        reveal_strlit("
    CREATE TABLE IF NOT EXISTS Songs (
        id INTEGER PRIMARY KEY AUTOINCREMENT,
        yt_id TEXT NOT NULL,
        title TEXT NOT NULL,
        artist TEXT NOT NULL,
        album TEXT NOT NULL,
        duration INTEGER NOT NULL
    );
");
    }
}

/// The placeholders and commas of `CREATE_PLAYLIST_TABLE`.
proof fn lemma_shape_create_playlist_table()
    ensures
        char_count(CREATE_PLAYLIST_TABLE@, '?') == 0,
        char_count(CREATE_PLAYLIST_TABLE@, ',') == 1,
{
    reveal_strlit("
    CREATE TABLE IF NOT EXISTS Playlists (
        id INTEGER PRIMARY KEY AUTOINCREMENT,
        title TEXT NOT NULL
    );
");
    assert(count_upto(CREATE_PLAYLIST_TABLE@, '?', 40) == 0) by {
        reveal_with_fuel(count_upto, 42);
        reveal_strlit("
    CREATE TABLE IF NOT EXISTS Playlists (
        id INTEGER PRIMARY KEY AUTOINCREMENT,
        title TEXT NOT NULL
    );
");
    }
    assert(count_upto(CREATE_PLAYLIST_TABLE@, '?', 80) == 0) by {
        reveal_with_fuel(count_upto, 42);
        reveal_strlit("
    CREATE TABLE IF NOT EXISTS Playlists (
        id INTEGER PRIMARY KEY AUTOINCREMENT,
        title TEXT NOT NULL
    );
");
    }
    assert(count_upto(CREATE_PLAYLIST_TABLE@, '?', 120) == 0) by {
        reveal_with_fuel(count_upto, 42);
        reveal_strlit("
    CREATE TABLE IF NOT EXISTS Playlists (
        id INTEGER PRIMARY KEY AUTOINCREMENT,
        title TEXT NOT NULL
    );
");
    }
    assert(count_upto(CREATE_PLAYLIST_TABLE@, '?', 125) == 0) by {
        reveal_with_fuel(count_upto, 42);
        reveal_strlit("
    CREATE TABLE IF NOT EXISTS Playlists (
        id INTEGER PRIMARY KEY AUTOINCREMENT,
        title TEXT NOT NULL
    );
");
    }
    assert(count_upto(CREATE_PLAYLIST_TABLE@, ',', 40) == 0) by {
        reveal_with_fuel(count_upto, 42);
        reveal_strlit("
    CREATE TABLE IF NOT EXISTS Playlists (
        id INTEGER PRIMARY KEY AUTOINCREMENT,
        title TEXT NOT NULL
    );
");
    }
    assert(count_upto(CREATE_PLAYLIST_TABLE@, ',', 80) == 0) by {
        reveal_with_fuel(count_upto, 42);
        reveal_strlit("
    CREATE TABLE IF NOT EXISTS Playlists (
        id INTEGER PRIMARY KEY AUTOINCREMENT,
        title TEXT NOT NULL
    );
");
    }
    assert(count_upto(CREATE_PLAYLIST_TABLE@, ',', 120) == 1) by {
        reveal_with_fuel(count_upto, 42);
        reveal_strlit("
    CREATE TABLE IF NOT EXISTS Playlists (
        id INTEGER PRIMARY KEY AUTOINCREMENT,
        title TEXT NOT NULL
    );
");
    }
    assert(count_upto(CREATE_PLAYLIST_TABLE@, ',', 125) == 1) by {
        reveal_with_fuel(count_upto, 42);
        reveal_strlit("
    CREATE TABLE IF NOT EXISTS Playlists (
        id INTEGER PRIMARY KEY AUTOINCREMENT,
        title TEXT NOT NULL
    );
");
    }
}

/// The placeholders and commas of `CREATE_SECRETS_TABLE`.
proof fn lemma_shape_create_secrets_table()
    ensures
        char_count(CREATE_SECRETS_TABLE@, '?') == 0,
        char_count(CREATE_SECRETS_TABLE@, ',') == 2,
{
    reveal_strlit("
    CREATE TABLE IF NOT EXISTS Secrets (
        id INTEGER PRIMARY KEY AUTOINCREMENT,
        name TEXT NOT NULL,
        value TEXT NOT NULL
    );
");
    assert(count_upto(CREATE_SECRETS_TABLE@, '?', 40) == 0) by {
        reveal_with_fuel(count_upto, 42);
        reveal_strlit("
    CREATE TABLE IF NOT EXISTS Secrets (
        id INTEGER PRIMARY KEY AUTOINCREMENT,
        name TEXT NOT NULL,
        value TEXT NOT NULL
    );
");
    }
    assert(count_upto(CREATE_SECRETS_TABLE@, '?', 80) == 0) by {
        reveal_with_fuel(count_upto, 42);
        reveal_strlit("
    CREATE TABLE IF NOT EXISTS Secrets (
        id INTEGER PRIMARY KEY AUTOINCREMENT,
        name TEXT NOT NULL,
        value TEXT NOT NULL
    );
");
    }
    assert(count_upto(CREATE_SECRETS_TABLE@, '?', 120) == 0) by {
        reveal_with_fuel(count_upto, 42);
        reveal_strlit("
    CREATE TABLE IF NOT EXISTS Secrets (
        id INTEGER PRIMARY KEY AUTOINCREMENT,
        name TEXT NOT NULL,
        value TEXT NOT NULL
    );
");
    }
    assert(count_upto(CREATE_SECRETS_TABLE@, '?', 151) == 0) by {
        reveal_with_fuel(count_upto, 42);
        reveal_strlit("
    CREATE TABLE IF NOT EXISTS Secrets (
        id INTEGER PRIMARY KEY AUTOINCREMENT,
        name TEXT NOT NULL,
        value TEXT NOT NULL
    );
");
    }
    assert(count_upto(CREATE_SECRETS_TABLE@, ',', 40) == 0) by {
        reveal_with_fuel(count_upto, 42);
        reveal_strlit("
    CREATE TABLE IF NOT EXISTS Secrets (
        id INTEGER PRIMARY KEY AUTOINCREMENT,
        name TEXT NOT NULL,
        value TEXT NOT NULL
    );
");
    }
    assert(count_upto(CREATE_SECRETS_TABLE@, ',', 80) == 0) by {
        reveal_with_fuel(count_upto, 42);
        reveal_strlit("
    CREATE TABLE IF NOT EXISTS Secrets (
        id INTEGER PRIMARY KEY AUTOINCREMENT,
        name TEXT NOT NULL,
        value TEXT NOT NULL
    );
");
    }
    assert(count_upto(CREATE_SECRETS_TABLE@, ',', 120) == 2) by {
        reveal_with_fuel(count_upto, 42);
        reveal_strlit("
    CREATE TABLE IF NOT EXISTS Secrets (
        id INTEGER PRIMARY KEY AUTOINCREMENT,
        name TEXT NOT NULL,
        value TEXT NOT NULL
    );
");
    }
    assert(count_upto(CREATE_SECRETS_TABLE@, ',', 151) == 2) by {
        reveal_with_fuel(count_upto, 42);
        reveal_strlit("
    CREATE TABLE IF NOT EXISTS Secrets (
        id INTEGER PRIMARY KEY AUTOINCREMENT,
        name TEXT NOT NULL,
        value TEXT NOT NULL
    );
");
    }
}

/// Every statement has one placeholder for each value its builder binds:
/// the song insertion five, the playlist insertion one, the entry insertion
/// two, the secret insertion two, the rename two, removing a song from a
/// playlist two, the search in a playlist four, the other lookups and removals by one key one, and the
/// listings none.
pub proof fn law_placeholders_match_bound_values()
    ensures
        placeholders(INSERT_SONG) == 5,
        placeholders(INSERT_PLAYLIST) == 1,
        placeholders(INSERT_ENTRY) == 2,
        placeholders(INSERT_SECRET) == 2,
        placeholders(UPDATE_PLAYLIST_NAME) == 2,
        placeholders(REMOVE_SONG_FROM_PLAYLIST) == 2,
        placeholders(REMOVE_ALL_FROM_PLAYLIST) == 1,
        placeholders(REMOVE_PLAYLIST) == 1,
        placeholders(REMOVE_SECRET_BY_NAME) == 1,
        placeholders(SELECT_SONG_BY_YOUTUBE_ID) == 1,
        placeholders(SELECT_PLAYLIST_BY_ID) == 1,
        placeholders(SELECT_ALL_SONGS_IN_PLAYLIST) == 1,
        placeholders(SEARCH_PLAYLIST) == 4,
        placeholders(SELECT_SONG_BY_TITLE) == 1,
        placeholders(SELECT_SECRET_BY_NAME) == 1,
        placeholders(SELECT_ALL_SONGS) == 0,
        placeholders(SELECT_ALL_PLAYLISTS) == 0,
{
    lemma_shape_insert_song();
    lemma_shape_insert_playlist();
    lemma_shape_insert_entry();
    lemma_shape_insert_secret();
    lemma_shape_update_playlist_name();
    lemma_shape_remove_song_from_playlist();
    lemma_shape_remove_all_from_playlist();
    lemma_shape_remove_playlist();
    lemma_shape_remove_secret_by_name();
    lemma_shape_select_song_by_youtube_id();
    lemma_shape_select_playlist_by_id();
    lemma_shape_select_all_songs_in_playlist();
    lemma_shape_search_playlist();
    lemma_shape_select_song_by_title();
    lemma_shape_select_secret_by_name();
    lemma_shape_select_all_songs();
    lemma_shape_select_all_playlists();
}

/// Each insertion into a table with an id column lists one value for every
/// column the table declares: `null` for the id, which the database
/// assigns, then one placeholder for each other column.
pub proof fn law_inserts_fill_their_tables()
    ensures
        listed(INSERT_SONG) == listed(CREATE_SONG_TABLE),
        listed(INSERT_PLAYLIST) == listed(CREATE_PLAYLIST_TABLE),
        listed(INSERT_SECRET) == listed(CREATE_SECRETS_TABLE),
        listed(INSERT_SONG) == placeholders(INSERT_SONG) + 1,
        listed(INSERT_PLAYLIST) == placeholders(INSERT_PLAYLIST) + 1,
        listed(INSERT_SECRET) == placeholders(INSERT_SECRET) + 1,
{
    lemma_shape_insert_song();
    lemma_shape_insert_playlist();
    lemma_shape_insert_secret();
    lemma_shape_create_song_table();
    lemma_shape_create_playlist_table();
    lemma_shape_create_secrets_table();
}

} // verus!
