//! Songs and playlists.
use vstd::prelude::*;
use crate::number::{decimal, decimal_pad2, push_decimal, push_decimal_pad2};
use crate::text::{push_char, push_str, replace_spaces, spaces_to_underscores};

verus! {

/// A length of time as a `Duration` holds it: whole seconds and the
/// nanoseconds beyond them.
#[derive(Debug, Clone, Copy, PartialEq, Eq, Hash, Structural)]
pub struct Length {
    pub secs: u64,
    pub nanos: u32,
}

/// The nanoseconds a length stands for.
pub open spec fn length_nanos(l: Length) -> nat {
    l.secs as nat * 1_000_000_000 + l.nanos as nat
}

impl Length {
    /// A length of whole seconds.
    pub fn from_secs(secs: u64) -> (r: Length)
        ensures
            r == (Length { secs, nanos: 0 }),
    {
        Length { secs, nanos: 0 }
    }

    /// The nanoseconds the length stands for.
    pub fn total_nanos(&self) -> (r: u128)
        ensures
            r == length_nanos(*self),
            r < 0x1_0000_0000_0000_0000_0000_0000,
    {
        let secs = self.secs as u128;
        assert(secs * 1_000_000_000 <= 0xffff_ffff_ffff_ffff * 1_000_000_000) by (nonlinear_arith)
            requires
                secs <= 0xffff_ffff_ffff_ffff,
        ;
        secs * 1_000_000_000 + self.nanos as u128
    }
}

/// A song known to the library.
///
/// `duration` is the song's length. `music_path` is the location of
/// the downloaded audio file, if the song has been downloaded.
#[derive(Debug, PartialEq, Eq, Hash)]
pub struct Song {
    pub id: usize,
    pub yt_id: String,
    pub title: String,
    pub artist: String,
    pub album: Option<String>,
    pub duration: Length,
    pub music_path: Option<String>,
}

/// A copy of an optional string.
pub fn clone_opt_string(s: &Option<String>) -> (r: Option<String>)
    ensures
        r == *s,
{
    match s {
        Some(v) => Some(v.clone()),
        None => None,
    }
}

impl Clone for Song {
    fn clone(&self) -> (r: Self)
        ensures
            r == *self,
    {
        Song {
            id: self.id,
            yt_id: self.yt_id.clone(),
            title: self.title.clone(),
            artist: self.artist.clone(),
            album: clone_opt_string(&self.album),
            duration: self.duration,
            music_path: clone_opt_string(&self.music_path),
        }
    }
}

/// A copy of a list of songs.
pub fn clone_songs(songs: &Vec<Song>) -> (r: Vec<Song>)
    ensures
        r@ == songs@,
{
    let mut r: Vec<Song> = Vec::new();
    let mut i: usize = 0;
    while i < songs.len()
        invariant
            i <= songs.len(),
            r@ == songs@.take(i as int),
        decreases songs.len() - i,
    {
        r.push(songs[i].clone());
        assert(songs@.take(i + 1) =~= songs@.take(i as int).push(songs@[i as int]));
        i = i + 1;
    }
    assert(songs@.take(songs.len() as int) =~= songs@);
    r
}

/// The text `display_duration` shows: minutes and seconds, each at least two
/// digits, separated by a colon.
pub open spec fn duration_text(secs: nat) -> Seq<char> {
    decimal_pad2(secs / 60) + seq![':'] + decimal_pad2(secs % 60)
}

/// The identifier under which a song's thumbnail is stored: its album, or its
/// video id when it has no album, with spaces replaced by underscores.
pub open spec fn thumbnail_identifier(album: Option<Seq<char>>, yt_id: Seq<char>) -> Seq<char> {
    match album {
        Some(a) => spaces_to_underscores(a),
        None => spaces_to_underscores(yt_id),
    }
}

/// The view of an optional string.
pub open spec fn opt_view(s: Option<String>) -> Option<Seq<char>> {
    match s {
        Some(v) => Some(v@),
        None => None,
    }
}

/// The one-line description of a song: title, artist, album, duration,
/// database id and video id.
pub open spec fn description(
    title: Seq<char>,
    artist: Seq<char>,
    album: Option<Seq<char>>,
    secs: nat,
    id: nat,
    yt_id: Seq<char>,
) -> Seq<char> {
    let album_part = match album {
        Some(a) => " in "@ + a,
        None => Seq::<char>::empty(),
    };
    title + " by "@ + artist + album_part + ". "@ + decimal_pad2(secs / 60) + decimal_pad2(
        secs % 60,
    ) + ". SQL: "@ + decimal(id) + ". YT: "@ + yt_id + "."@
}

impl Song {
    /// A song that has not been downloaded.
    pub fn new(
        id: usize,
        yt_id: String,
        title: String,
        artist: String,
        album: Option<String>,
        duration: Length,
    ) -> (s: Self)
        ensures
            s == (Song { id, yt_id, title, artist, album, duration, music_path: None }),
    {
        Self { id, yt_id, title, artist, album, duration, music_path: None }
    }

    /// The duration as `mm:ss`.
    pub fn display_duration(&self) -> (r: String)
        ensures
            r@ == duration_text(self.duration.secs as nat),
    {
        let mut r = String::new();
        push_decimal_pad2(&mut r, self.duration.secs / 60);
        push_char(&mut r, ':');
        push_decimal_pad2(&mut r, self.duration.secs % 60);
        assert(r@ =~= duration_text(self.duration.secs as nat));
        r
    }

    /// The video id that the audio is downloaded by.
    pub fn get_music_identifier(&self) -> (r: String)
        ensures
            r == self.yt_id,
    {
        self.yt_id.clone()
    }

    /// The identifier the song's thumbnail is stored under.
    pub fn get_thumbnail_identifier(&self) -> (r: String)
        ensures
            r@ == thumbnail_identifier(opt_view(self.album), self.yt_id@),
    {
        match &self.album {
            Some(album) => replace_spaces(album.as_str()),
            None => replace_spaces(self.yt_id.as_str()),
        }
    }

    /// The one-line description of the song.
    pub fn to_display_string(&self) -> (r: String)
        ensures
            r@ == description(
                self.title@,
                self.artist@,
                opt_view(self.album),
                self.duration.secs as nat,
                self.id as nat,
                self.yt_id@,
            ),
    {
        let mut r = String::new();
        push_str(&mut r, self.title.as_str());
        push_str(&mut r, " by ");
        push_str(&mut r, self.artist.as_str());
        match &self.album {
            Some(album) => {
                push_str(&mut r, " in ");
                push_str(&mut r, album.as_str());
            },
            None => {},
        }
        push_str(&mut r, ". ");
        push_decimal_pad2(&mut r, self.duration.secs / 60);
        push_decimal_pad2(&mut r, self.duration.secs % 60);
        push_str(&mut r, ". SQL: ");
        push_decimal(&mut r, self.id as u64);
        push_str(&mut r, ". YT: ");
        push_str(&mut r, self.yt_id.as_str());
        push_str(&mut r, ".");
        assert(r@ =~= description(
            self.title@,
            self.artist@,
            opt_view(self.album),
            self.duration.secs as nat,
            self.id as nat,
            self.yt_id@,
        ));
        r
    }
}

/// Everything that identifies a song, as plain values.
pub struct SongKey {
    pub id: usize,
    pub yt_id: Seq<char>,
    pub title: Seq<char>,
    pub artist: Seq<char>,
    pub album: Option<Seq<char>>,
    pub duration: Length,
    pub music_path: Option<Seq<char>>,
}

/// The key of a song: two songs are equal under `==` exactly when their keys
/// are.
pub open spec fn song_key(s: Song) -> SongKey {
    SongKey {
        id: s.id,
        yt_id: s.yt_id@,
        title: s.title@,
        artist: s.artist@,
        album: opt_view(s.album),
        duration: s.duration,
        music_path: opt_view(s.music_path),
    }
}

/// Whether two optional strings hold the same text.
pub fn opt_string_eq(a: &Option<String>, b: &Option<String>) -> (r: bool)
    ensures
        r == (opt_view(*a) == opt_view(*b)),
{
    match (a, b) {
        (Some(x), Some(y)) => *x == *y,
        (None, None) => true,
        _ => false,
    }
}

impl Song {
    /// Whether two songs are equal field by field.
    pub fn same_as(&self, other: &Song) -> (r: bool)
        ensures
            r == (song_key(*self) == song_key(*other)),
    {
        self.id == other.id && self.yt_id == other.yt_id && self.title == other.title
            && self.artist == other.artist && opt_string_eq(&self.album, &other.album)
            && self.duration == other.duration && opt_string_eq(&self.music_path, &other.music_path)
    }
}

/// A named playlist.
#[derive(Debug)]
pub struct Playlist {
    pub id: usize,
    pub name: String,
}

impl Clone for Playlist {
    fn clone(&self) -> (r: Self)
        ensures
            r == *self,
    {
        Playlist { id: self.id, name: self.name.clone() }
    }
}

} // verus!
