//! The addresses the downloader is pointed at, the reading of what it
//! reports, and the steps that add a song found online to the library.
use vstd::prelude::*;
use crate::error::ResonateError;
use crate::music::{Song, Length, opt_view};
use crate::text::{push_str, replace_char, replace_char_spec};

verus! {

/// The address of a search on YouTube Music; spaces in the query become `+`.
pub open spec fn search_url_spec(query: Seq<char>) -> Seq<char> {
    "https://music.youtube.com/search?q="@ + replace_char_spec(query, ' ', '+')
}

/// The address of a search on YouTube Music.
pub fn search_url(query: &str) -> (r: String)
    ensures
        r@ == search_url_spec(query@),
{
    let mut r = String::new();
    push_str(&mut r, "https://music.youtube.com/search?q=");
    let q = replace_char(query, ' ', '+');
    push_str(&mut r, q.as_str());
    r
}

/// The address of a video on YouTube Music.
pub open spec fn watch_url_spec(id: Seq<char>) -> Seq<char> {
    "https://music.youtube.com/watch?v="@ + id
}

/// The address of a video on YouTube Music.
pub fn watch_url(id: &str) -> (r: String)
    ensures
        r@ == watch_url_spec(id@),
{
    let mut r = String::new();
    push_str(&mut r, "https://music.youtube.com/watch?v=");
    push_str(&mut r, id);
    r
}

/// The name of the audio file of a video once it is downloaded.
pub open spec fn audio_file_name_spec(id: Seq<char>) -> Seq<char> {
    id + ".mp3"@
}

/// The name of the audio file of a video once it is downloaded.
pub fn audio_file_name(id: &str) -> (r: String)
    ensures
        r@ == audio_file_name_spec(id@),
{
    let mut r = String::new();
    push_str(&mut r, id);
    push_str(&mut r, ".mp3");
    r
}

/// One entry of a search as the downloader lists it: the video's id, and its
/// title when it reported one.
pub struct FlatEntry {
    pub id: String,
    pub title: Option<String>,
}

/// The ids of the entries that have a title, in order.
pub open spec fn titled_ids(e: Seq<FlatEntry>) -> Seq<Seq<char>>
    decreases e.len(),
{
    if e.len() == 0 {
        Seq::empty()
    } else {
        titled_ids(e.drop_last()) + if e.last().title is Some {
            seq![e.last().id@]
        } else {
            Seq::<Seq<char>>::empty()
        }
    }
}

/// The text of a list of strings.
pub open spec fn texts(v: Seq<String>) -> Seq<Seq<char>> {
    v.map_values(|s: String| s@)
}

/// The ids of the search results that have a title, in order.
pub fn flat_results(entries: Vec<FlatEntry>) -> (r: Vec<String>)
    ensures
        texts(r@) == titled_ids(entries@),
{
    let mut r: Vec<String> = Vec::new();
    let mut i: usize = 0;
    while i < entries.len()
        invariant
            i <= entries.len(),
            texts(r@) == titled_ids(entries@.take(i as int)),
        decreases entries.len() - i,
    {
        assert(entries@.take(i + 1).drop_last() =~= entries@.take(i as int));
        if entries[i].title.is_some() {
            r.push(entries[i].id.clone());
        }
        assert(texts(r@) =~= titled_ids(entries@.take(i + 1)));
        i = i + 1;
    }
    assert(entries@.take(entries.len() as int) =~= entries@);
    r
}

/// What a search gives back: a failed run is a network error; a run that
/// listed no playlist or no entries found nothing.
pub open spec fn search_ids_spec(outcome: Result<Option<Seq<FlatEntry>>, ()>) -> Result<Seq<Seq<char>>, ResonateError> {
    match outcome {
        Err(_) => Err(ResonateError::NetworkError),
        Ok(None) => Ok(Seq::empty()),
        Ok(Some(e)) => Ok(titled_ids(e)),
    }
}

/// The plain values of a listing.
pub open spec fn listing_view(outcome: Result<Option<Vec<FlatEntry>>, ()>) -> Result<Option<Seq<FlatEntry>>, ()> {
    match outcome {
        Err(e) => Err(e),
        Ok(None) => Ok(None),
        Ok(Some(v)) => Ok(Some(v@)),
    }
}

/// The ids a search gives back, from the downloader's listing.
pub fn search_ids(outcome: Result<Option<Vec<FlatEntry>>, ()>) -> (r: Result<Vec<String>, ResonateError>)
    ensures
        match r {
            Ok(v) => search_ids_spec(listing_view(outcome)) == Ok::<Seq<Seq<char>>, ResonateError>(texts(v@)),
            Err(e) => search_ids_spec(listing_view(outcome)) == Err::<Seq<Seq<char>>, ResonateError>(e),
        },
{
    match outcome {
        Err(_) => Err(ResonateError::NetworkError),
        Ok(None) => {
            let v: Vec<String> = Vec::new();
            assert(texts(v@) =~= Seq::empty());
            Ok(v)
        },
        Ok(Some(e)) => Ok(flat_results(e)),
    }
}

/// The song the downloader's metadata describes: it needs a title, an artist
/// and a duration; a duration that is not a whole number of seconds counts
/// as zero. The song has id zero until the library stores it.
pub open spec fn metadata_song_spec(
    id: Seq<char>,
    title: Option<Seq<char>>,
    artist: Option<Seq<char>>,
    duration: Option<Option<u64>>,
    album: Option<Seq<char>>,
    music_path: Option<Seq<char>>,
) -> Option<(Seq<char>, Seq<char>, Seq<char>, Option<Seq<char>>, Length, Option<Seq<char>>)> {
    match (title, artist, duration) {
        (Some(t), Some(a), Some(d)) => Some(
            (
                id,
                t,
                a,
                album,
                Length {
                    secs: match d {
                        Some(s) => s,
                        None => 0,
                    },
                    nanos: 0,
                },
                music_path,
            ),
        ),
        _ => None,
    }
}

/// The fields of a song other than its id, as plain values.
pub open spec fn song_fields_view(s: Song) -> (Seq<char>, Seq<char>, Seq<char>, Option<Seq<char>>, Length, Option<Seq<char>>) {
    (s.yt_id@, s.title@, s.artist@, opt_view(s.album), s.duration, opt_view(s.music_path))
}

/// The song the downloader's metadata describes, or a network error when a
/// title, an artist or a duration is missing.
pub fn song_from_metadata(
    id: String,
    title: Option<String>,
    artist: Option<String>,
    duration: Option<Option<u64>>,
    album: Option<String>,
    music_path: Option<String>,
) -> (r: Result<Song, ResonateError>)
    ensures
        match r {
            Ok(s) => s.id == 0 && metadata_song_spec(
                id@,
                opt_view(title),
                opt_view(artist),
                duration,
                opt_view(album),
                opt_view(music_path),
            ) == Some(song_fields_view(s)),
            Err(e) => e == ResonateError::NetworkError && metadata_song_spec(
                id@,
                opt_view(title),
                opt_view(artist),
                duration,
                opt_view(album),
                opt_view(music_path),
            ) is None,
        },
{
    match (title, artist, duration) {
        (Some(t), Some(a), Some(d)) => {
            let secs: u64 = match d {
                Some(s) => s,
                None => 0,
            };
            Ok(Song { id: 0, yt_id: id, title: t, artist: a, album, duration: Length::from_secs(secs), music_path })
        },
        _ => Err(ResonateError::NetworkError),
    }
}

/// A song built from the downloader's metadata carries that metadata
/// unchanged: the video id, the title as the title, the artist as the
/// artist, the album and the file; its duration is the metadata's whole
/// seconds (zero when the duration is not a whole number). Such a song
/// exists exactly when a title, an artist and a duration are present.
pub proof fn law_metadata_song_keeps_fields(
    s: Song,
    id: Seq<char>,
    title: Option<Seq<char>>,
    artist: Option<Seq<char>>,
    duration: Option<Option<u64>>,
    album: Option<Seq<char>>,
    music_path: Option<Seq<char>>,
)
    ensures
        metadata_song_spec(id, title, artist, duration, album, music_path) is Some <==> (title is Some
            && artist is Some && duration is Some),
        metadata_song_spec(id, title, artist, duration, album, music_path) == Some(song_fields_view(s)) ==> {
            &&& s.yt_id@ == id
            &&& title == Some(s.title@)
            &&& artist == Some(s.artist@)
            &&& opt_view(s.album) == album
            &&& opt_view(s.music_path) == music_path
            &&& s.duration.nanos == 0
            &&& s.duration.secs == match duration {
                Some(Some(secs)) => secs,
                _ => 0,
            }
        },
{
}

/// The song after its insertion into the library: it takes the id the
/// library gave it; a failed insertion is an SQL error.
pub open spec fn stored_song(song: Song, inserted: Result<usize, ()>) -> Result<Song, ResonateError> {
    match inserted {
        Ok(id) => Ok(Song { id, ..song }),
        Err(_) => Err(ResonateError::SQLError),
    }
}

/// Adds a video found online to the library. A video the library already
/// holds is refused; otherwise its metadata is collected, and a song found
/// there is stored and given the id the library chose. `collect` and
/// `insert` do the outside work: reading the metadata and storing the song.
pub fn populate<C, I>(unique: bool, collect: C, insert: I) -> (r: Result<Song, ResonateError>) where
    C: FnOnce() -> Result<Song, ResonateError>,
    I: FnOnce(Song) -> Result<usize, ()>,

    requires
        unique ==> call_requires(collect, ()),
        forall|s: Song| call_requires(insert, (s,)),
    ensures
        !unique ==> r == Err::<Song, ResonateError>(ResonateError::AlreadyExists),
        unique ==> exists|m: Result<Song, ResonateError>|
            #[trigger] call_ensures(collect, (), m) && match m {
                Err(e) => r == Err::<Song, ResonateError>(e),
                Ok(song) => exists|a: Result<usize, ()>|
                    #[trigger] call_ensures(insert, (song,), a) && r == stored_song(song, a),
            },
{
    if !unique {
        return Err(ResonateError::AlreadyExists);
    }
    let found = collect();
    let mut song = match found {
        Ok(song) => song,
        Err(e) => return Err(e),
    };
    let inserted = insert(song.clone());
    match inserted {
        Ok(id) => {
            song.id = id;
            Ok(song)
        },
        Err(_) => Err(ResonateError::SQLError),
    }
}

/// What the start of a poll does, as plain values.
pub enum StartKind {
    Spawn(Seq<char>),
    End,
    Running,
}

/// The kind of a poll's start.
pub open spec fn start_kind(s: PoolStart) -> StartKind {
    match s {
        PoolStart::Spawn(id) => StartKind::Spawn(id@),
        PoolStart::End => StartKind::End,
        PoolStart::Running => StartKind::Running,
    }
}

/// The start of a poll on the ids left and whether a worker runs: the ids
/// left, whether a worker runs afterwards, and what the poll does.
pub open spec fn begin_spec(ids: Seq<Seq<char>>, running: bool) -> (Seq<Seq<char>>, bool, StartKind) {
    if running {
        (ids, true, StartKind::Running)
    } else if ids.len() == 0 {
        (ids, false, StartKind::End)
    } else {
        (ids.drop_last(), true, StartKind::Spawn(ids.last()))
    }
}

/// `k` rounds in which a poll starts a worker and the worker finishes before
/// the next poll: the ids left and what each poll did.
pub open spec fn pool_rounds(ids: Seq<Seq<char>>, k: nat) -> (Seq<Seq<char>>, Seq<StartKind>)
    decreases k,
{
    if k == 0 {
        (ids, Seq::empty())
    } else {
        let (left, starts) = pool_rounds(ids, (k - 1) as nat);
        let (left2, _, start) = begin_spec(left, false);
        (left2, starts.push(start))
    }
}

/// After `k` rounds, the last `k` ids were handed out, the last first.
pub proof fn lemma_pool_rounds(ids: Seq<Seq<char>>, k: nat)
    requires
        k <= ids.len(),
    ensures
        pool_rounds(ids, k).0 == ids.take(ids.len() - k),
        pool_rounds(ids, k).1 == Seq::new(k, |i: int| StartKind::Spawn(ids[ids.len() - 1 - i])),
    decreases k,
{
    if k > 0 {
        lemma_pool_rounds(ids, (k - 1) as nat);
        let left = ids.take(ids.len() - (k - 1));
        assert(left.drop_last() =~= ids.take(ids.len() - k));
        assert(pool_rounds(ids, k).1 =~= Seq::new(k, |i: int| StartKind::Spawn(ids[ids.len() - 1 - i])));
    }
}

/// Every id is handed to exactly one worker, the last id first, and once
/// all were handed out the next poll ends the stream.
pub proof fn law_pool_hands_out_each_id_once(ids: Seq<Seq<char>>)
    ensures
        pool_rounds(ids, ids.len()).1 == ids.reverse().map_values(|id: Seq<char>| StartKind::Spawn(id)),
        begin_spec(pool_rounds(ids, ids.len()).0, false).2 == StartKind::End,
{
    lemma_pool_rounds(ids, ids.len());
    assert(ids.take(0) =~= Seq::<Seq<char>>::empty());
    assert(pool_rounds(ids, ids.len()).1 =~= ids.reverse().map_values(|id: Seq<char>| StartKind::Spawn(id)));
}

/// The text of the ids left in a pool.
pub open spec fn id_views(v: Seq<String>) -> Seq<Seq<char>> {
    v.map_values(|s: String| s@)
}

/// What a poll of the metadata pool does when no worker is running.
pub enum PoolStart {
    /// Start a worker on this id.
    Spawn(String),
    /// Every id was handled: the stream ends.
    End,
    /// A worker is already running.
    Running,
}

/// The ids whose metadata is still to be collected, one worker at a time.
pub struct MetadataPool {
    /// The ids not yet handed to a worker; the last is taken first.
    pub ids: Vec<String>,
    /// Whether a worker is running.
    pub running: bool,
}

impl MetadataPool {
    /// A pool for the given ids, with no worker running.
    pub fn new(ids: Vec<String>) -> (r: MetadataPool)
        ensures
            r.ids@ == ids@,
            !r.running,
    {
        MetadataPool { ids, running: false }
    }

    /// The start of a poll: with no worker running, the last id left is
    /// handed to a new worker, or the stream ends when none is left.
    pub fn begin_poll(&mut self) -> (r: PoolStart)
        ensures
            (id_views(final(self).ids@), final(self).running, start_kind(r)) == begin_spec(
                id_views(old(self).ids@),
                old(self).running,
            ),
            old(self).running ==> r is Running && final(self).ids@ == old(self).ids@ && final(self).running,
            !old(self).running && old(self).ids.len() == 0 ==> r is End && final(self).ids@ == old(self).ids@
                && !final(self).running,
            !old(self).running && old(self).ids.len() > 0 ==> {
                &&& r matches PoolStart::Spawn(id)
                &&& r matches PoolStart::Spawn(id) && id == old(self).ids@.last()
                &&& final(self).ids@ == old(self).ids@.drop_last()
                &&& final(self).running
            },
    {
        if self.running {
            return PoolStart::Running;
        }
        match self.ids.pop() {
            Some(id) => {
                self.running = true;
                PoolStart::Spawn(id)
            },
            None => PoolStart::End,
        }
    }

    /// The running worker finished: its song, or a failure without its
    /// reason, is handed on; a worker that did not return ends the stream
    /// (`None`).
    pub fn finish(&mut self, joined: Option<Result<Song, ResonateError>>) -> (r: Option<Result<Song, ()>>)
        ensures
            !final(self).running,
            final(self).ids@ == old(self).ids@,
            r == match joined {
                None => None,
                Some(Ok(s)) => Some(Ok::<Song, ()>(s)),
                Some(Err(_)) => Some(Err::<Song, ()>(())),
            },
    {
        self.running = false;
        match joined {
            None => None,
            Some(Ok(s)) => Some(Ok(s)),
            Some(Err(_)) => Some(Err(())),
        }
    }
}

} // verus!
