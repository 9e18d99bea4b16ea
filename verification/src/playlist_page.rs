//! The page of one playlist: its songs, a search among them, and how many of
//! them are downloaded.
use vstd::prelude::*;
use crate::error::ResonateError;
use crate::filemanager::DataDir;
use crate::music::{Song, Playlist, clone_opt_string};
use crate::number::{decimal, push_decimal};
use crate::player::{index_of_id, lemma_index_of_id_first, lemma_index_of_id_none};
use crate::text::push_str;
use crate::util::consume;

verus! {

/// The number of songs of `s` that are downloaded.
pub open spec fn downloaded_count(s: Seq<Song>) -> nat
    decreases s.len(),
{
    if s.len() == 0 {
        0
    } else {
        downloaded_count(s.drop_last()) + if s.last().music_path is Some {
            1nat
        } else {
            0nat
        }
    }
}

/// The number of songs of `s` with the database id `id`.
pub open spec fn id_count(s: Seq<Song>, id: usize) -> nat
    decreases s.len(),
{
    if s.len() == 0 {
        0
    } else {
        id_count(s.drop_last(), id) + if s.last().id == id {
            1nat
        } else {
            0nat
        }
    }
}

/// A count over a list is at most its length.
pub proof fn lemma_counts_bounded(s: Seq<Song>, id: usize)
    ensures
        downloaded_count(s) <= s.len(),
        id_count(s, id) <= s.len(),
    decreases s.len(),
{
    if s.len() > 0 {
        lemma_counts_bounded(s.drop_last(), id);
    }
}

/// How many songs of a playlist are downloaded, and how many it has.
pub fn downloaded_info(songs: &Vec<Song>) -> (r: (usize, usize))
    ensures
        r.0 == downloaded_count(songs@),
        r.1 == songs.len(),
{
    let mut n: usize = 0;
    let mut i: usize = 0;
    while i < songs.len()
        invariant
            i <= songs.len(),
            n == downloaded_count(songs@.take(i as int)),
        decreases songs.len() - i,
    {
        assert(songs@.take(i + 1).drop_last() =~= songs@.take(i as int));
        proof {
            lemma_counts_bounded(songs@.take(i as int), 0);
        }
        if songs[i].music_path.is_some() {
            n = n + 1;
        }
        i = i + 1;
    }
    assert(songs@.take(songs.len() as int) =~= songs@);
    (n, songs.len())
}

/// The songs of `s` that are not downloaded, in order.
pub open spec fn missing_songs(s: Seq<Song>) -> Seq<Song> {
    s.filter(|x: Song| x.music_path is None)
}

/// The song with the id, after its download: it takes the downloaded song's
/// file.
pub open spec fn with_file(s: Song, downloaded: Song) -> Song {
    if s.id == downloaded.id {
        Song { music_path: downloaded.music_path, ..s }
    } else {
        s
    }
}

/// What choosing a song on the page does.
pub enum SongAction {
    /// Download the song, which has no file yet.
    Download(Song),
    /// Add the song to the playback queue.
    Queue(Song),
}

/// The state of a playlist's page.
pub struct PlaylistPage {
    pub playlist: Playlist,
    /// The songs shown, in order.
    pub songs: Vec<Song>,
    /// The text of the search box.
    pub query: String,
    pub directories: DataDir,
    /// The id of the song under the pointer.
    pub hovered_song: Option<usize>,
    /// The number of songs of the playlist when the page opened.
    pub total_songs: usize,
    /// The number of its songs that are downloaded.
    pub downloaded: usize,
}

impl PlaylistPage {
    /// Opens the page of a playlist: it needs the playlist's id, the
    /// playlist found under it and its songs. Without a count of the
    /// downloaded songs, none count as downloaded.
    pub fn new(
        playlist_id: Option<usize>,
        playlist: Option<Playlist>,
        songs: Result<Vec<Song>, ResonateError>,
        downloaded: Option<(usize, usize)>,
        directories: DataDir,
    ) -> (r: Result<PlaylistPage, ()>)
        ensures
            r is Ok <==> (playlist_id is Some && playlist is Some && songs is Ok),
            r matches Ok(p) ==> {
                &&& p.playlist == playlist->0
                &&& p.songs@ == songs->Ok_0@
                &&& p.query@ == Seq::<char>::empty()
                &&& p.directories@ == directories@
                &&& p.hovered_song is None
                &&& p.total_songs == songs->Ok_0.len()
                &&& p.downloaded == match downloaded {
                    Some(d) => d.0,
                    None => 0,
                }
            },
    {
        if playlist_id.is_none() {
            return Err(());
        }
        let (playlist, songs) = match (playlist, songs) {
            (Some(p), Ok(s)) => (p, s),
            _ => return Err(()),
        };
        let downloaded: usize = match downloaded {
            Some(d) => d.0,
            None => 0,
        };
        let total_songs = songs.len();
        Ok(
            PlaylistPage {
                playlist,
                songs,
                query: String::new(),
                directories,
                hovered_song: None,
                total_songs,
                downloaded,
            },
        )
    }

    /// The search box now holds `value`.
    pub fn text_input(&mut self, value: String)
        ensures
            *final(self) == (PlaylistPage { query: value, ..*old(self) }),
    {
        self.query = value;
    }

    /// A search among the playlist's songs was submitted: the songs shown
    /// are cleared and the query is taken out of the box and returned.
    pub fn submit_search(&mut self) -> (query: String)
        ensures
            query == old(self).query,
            final(self).query@ == Seq::<char>::empty(),
            final(self).songs@ == Seq::<Song>::empty(),
            *final(self) == (PlaylistPage { query: final(self).query, songs: final(self).songs, ..*old(self) }),
    {
        self.songs = Vec::new();
        consume(&mut self.query)
    }

    /// The search among the playlist's songs answered: its songs are shown;
    /// after a failure the list stays as it was.
    pub fn search_finished(&mut self, result: Result<Vec<Song>, ResonateError>)
        ensures
            final(self).songs@ == match result {
                Ok(v) => v@,
                Err(_) => old(self).songs@,
            },
            *final(self) == (PlaylistPage { songs: final(self).songs, ..*old(self) }),
    {
        match result {
            Ok(v) => {
                self.songs = v;
            },
            Err(_) => {},
        }
    }

    /// A song was downloaded: every shown song with its id takes its file,
    /// and each counts as one more download.
    pub fn song_downloaded(&mut self, song: &Song)
        requires
            old(self).downloaded + old(self).songs.len() <= usize::MAX,
        ensures
            final(self).songs@ == old(self).songs@.map_values(|s: Song| with_file(s, *song)),
            final(self).downloaded == old(self).downloaded + id_count(old(self).songs@, song.id),
            *final(self) == (PlaylistPage {
                songs: final(self).songs,
                downloaded: final(self).downloaded,
                ..*old(self)
            }),
    {
        let ghost start = self.songs@;
        let ghost d0 = self.downloaded;
        let mut songs: Vec<Song> = Vec::new();
        std::mem::swap(&mut songs, &mut self.songs);
        let mut out: Vec<Song> = Vec::new();
        let mut i: usize = 0;
        while i < songs.len()
            invariant
                songs@ == start,
                i <= songs.len(),
                out@ == start.take(i as int).map_values(|s: Song| with_file(s, *song)),
                self.downloaded == d0 + id_count(start.take(i as int), song.id),
                d0 + start.len() <= usize::MAX,
                *self == (PlaylistPage {
                    songs: self.songs,
                    downloaded: self.downloaded,
                    ..*old(self)
                }),
            decreases songs.len() - i,
        {
            assert(start.take(i + 1).drop_last() =~= start.take(i as int));
            proof {
                lemma_counts_bounded(start.take(i as int), song.id);
            }
            let s = songs[i].clone();
            if s.id == song.id {
                let mut t = s;
                t.music_path = clone_opt_string(&song.music_path);
                out.push(t);
                self.downloaded = self.downloaded + 1;
            } else {
                out.push(s);
            }
            assert(out@ =~= start.take(i + 1).map_values(|s: Song| with_file(s, *song)));
            i = i + 1;
        }
        assert(start.take(start.len() as int) =~= start);
        self.songs = out;
    }

    /// A song was taken out of the playlist: the first shown song with its
    /// id is removed.
    pub fn remove_song(&mut self, song_id: usize)
        ensures
            final(self).songs@ == match index_of_id(old(self).songs@, song_id) {
                Some(i) => old(self).songs@.remove(i),
                None => old(self).songs@,
            },
            *final(self) == (PlaylistPage { songs: final(self).songs, ..*old(self) }),
    {
        let mut i: usize = 0;
        while i < self.songs.len()
            invariant
                i <= self.songs.len(),
                *self == *old(self),
                forall|j: int| 0 <= j < i ==> (#[trigger] self.songs@[j]).id != song_id,
            decreases self.songs.len() - i,
        {
            if self.songs[i].id == song_id {
                proof {
                    lemma_index_of_id_first(self.songs@, song_id, i as int);
                }
                self.songs.remove(i);
                return;
            }
            i = i + 1;
        }
        proof {
            lemma_index_of_id_none(self.songs@, song_id);
        }
    }

    /// The pointer entered (`true`) or left a song.
    pub fn hover(&mut self, song_id: usize, hovered: bool)
        ensures
            *final(self) == (PlaylistPage {
                hovered_song: if hovered {
                    Some(song_id)
                } else {
                    None::<usize>
                },
                ..*old(self)
            }),
    {
        if hovered {
            self.hovered_song = Some(song_id);
        } else {
            self.hovered_song = None;
        }
    }

    /// Whether the song with the id is under the pointer.
    pub fn is_hovered(&self, song_id: usize) -> (r: bool)
        ensures
            r == (self.hovered_song == Some(song_id)),
    {
        match self.hovered_song {
            Some(id) => id == song_id,
            None => false,
        }
    }

    /// Whether the download banner shows: some songs are not downloaded yet.
    pub fn show_download_banner(&self) -> (r: bool)
        ensures
            r == (self.downloaded < self.total_songs),
    {
        self.downloaded < self.total_songs
    }

    /// The text of the download banner: `d / t downloaded`.
    pub fn banner_text(&self) -> (r: String)
        ensures
            r@ == decimal(self.downloaded as nat) + " / "@ + decimal(self.total_songs as nat)
                + " downloaded"@,
    {
        let mut s = String::new();
        push_decimal(&mut s, self.downloaded as u64);
        push_str(&mut s, " / ");
        push_decimal(&mut s, self.total_songs as u64);
        push_str(&mut s, " downloaded");
        s
    }

    /// The songs that the download-all button downloads: the shown songs
    /// that have no file, in order.
    pub fn missing(&self) -> (r: Vec<Song>)
        ensures
            r@ == missing_songs(self.songs@),
    {
        let ghost pred = |x: Song| x.music_path is None;
        let mut r: Vec<Song> = Vec::new();
        let mut i: usize = 0;
        while i < self.songs.len()
            invariant
                i <= self.songs.len(),
                pred == (|x: Song| x.music_path is None),
                r@ == self.songs@.take(i as int).filter(pred),
            decreases self.songs.len() - i,
        {
            assert(self.songs@.take(i + 1) =~= self.songs@.take(i as int).push(self.songs@[i as int]));
            proof {
                self.songs@.take(i as int).lemma_filter_push(self.songs@[i as int], pred);
            }
            if self.songs[i].music_path.is_none() {
                r.push(self.songs[i].clone());
            }
            i = i + 1;
        }
        assert(self.songs@.take(self.songs.len() as int) =~= self.songs@);
        r
    }

    /// What choosing a song does: a song without a file is downloaded, one
    /// with a file joins the playback queue.
    pub fn song_action(song: &Song) -> (r: SongAction)
        ensures
            r == if song.music_path is None {
                SongAction::Download(*song)
            } else {
                SongAction::Queue(*song)
            },
    {
        if song.music_path.is_none() {
            SongAction::Download(song.clone())
        } else {
            SongAction::Queue(song.clone())
        }
    }
}

} // verus!
