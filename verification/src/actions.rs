//! What the application does in answer to a few of its messages: adding a
//! song to a playlist, loading a whole playlist into the queue, and asking
//! for the thumbnail of a search result.
use vstd::prelude::*;
use crate::database::{DatabaseInterface, Statement, statement_view, ParamView, INSERT_ENTRY};
use crate::music::{Song, clone_opt_string};

verus! {

broadcast use vstd::multiset::group_multiset_axioms;

/// What adding a song to a playlist does: the statement that stores the
/// entry, the id of the song the pages mark as added, and the song to
/// download, since adding a song also downloads it.
pub struct AddToPlaylist {
    pub entry: Statement,
    pub added: usize,
    pub download: Song,
}

/// Adds a song to a playlist: stores the entry, marks the song as added and
/// asks for its download.
pub fn add_song_to_playlist(song: Song, playlist_id: usize) -> (r: AddToPlaylist)
    ensures
        statement_view(r.entry) == (INSERT_ENTRY, seq![ParamView::Int(playlist_id), ParamView::Int(song.id)]),
        r.added == song.id,
        r.download == song,
{
    let entry = DatabaseInterface::insert_playlist_entry(song.id, playlist_id);
    AddToPlaylist { entry, added: song.id, download: song }
}

/// The index a draw picks among `len` songs left: the `k`-th draw, or zero
/// once the draws run out, taken modulo `len`.
pub open spec fn pick_index(picks: Seq<usize>, k: nat, len: nat) -> int {
    ((if k < picks.len() {
        picks[k as int] as nat
    } else {
        0nat
    }) % len) as int
}

/// The songs in the order the draws pick them: each draw, from the `k`-th
/// on, takes one of the songs left.
pub open spec fn picked(left: Seq<Song>, picks: Seq<usize>, k: nat) -> Seq<Song>
    decreases left.len(),
{
    if left.len() == 0 {
        Seq::empty()
    } else {
        let i = pick_index(picks, k, left.len());
        seq![left[i]] + picked(left.remove(i), picks, k + 1)
    }
}

/// The order in which a playlist's songs join the queue: as stored, or, when
/// shuffling, in the order the draws pick them.
pub open spec fn queue_order_spec(songs: Seq<Song>, shuffle: bool, picks: Seq<usize>) -> Seq<Song> {
    if shuffle {
        picked(songs, picks, 0)
    } else {
        songs
    }
}

/// Picking keeps every song, each as often as it was there.
pub proof fn lemma_picked_permutes(left: Seq<Song>, picks: Seq<usize>, k: nat)
    ensures
        picked(left, picks, k).to_multiset() == left.to_multiset(),
    decreases left.len(),
{
    broadcast use vstd::seq_lib::group_to_multiset_ensures;

    if left.len() > 0 {
        let i = pick_index(picks, k, left.len());
        let rest = left.remove(i);
        lemma_picked_permutes(rest, picks, k + 1);
        vstd::seq_lib::lemma_multiset_commutative(seq![left[i]], picked(rest, picks, k + 1));
        vstd::seq_lib::to_multiset_remove(left, i);
        assert(seq![left[i]].to_multiset() =~= vstd::multiset::Multiset::empty().insert(left[i])) by {
            assert(Seq::<Song>::empty().push(left[i]) =~= seq![left[i]]);
            vstd::seq_lib::to_multiset_build(Seq::<Song>::empty(), left[i]);
        }
        assert(left.to_multiset().contains(left[i])) by {
            assert(left.contains(left[i]));
        }
        assert(picked(left, picks, k).to_multiset() =~= left.to_multiset());
    }
}

/// Loading a whole playlist into the queue shuffles it or keeps it in order,
/// and either way every song joins the queue exactly as often as it is in
/// the playlist.
pub proof fn law_queue_order_keeps_songs(songs: Seq<Song>, shuffle: bool, picks: Seq<usize>)
    ensures
        queue_order_spec(songs, shuffle, picks).to_multiset() == songs.to_multiset(),
        !shuffle ==> queue_order_spec(songs, shuffle, picks) == songs,
{
    lemma_picked_permutes(songs, picks, 0);
}

/// The order in which a playlist's songs join the queue. `picks` are the
/// random draws the caller made; the `k`-th draw picks among the songs left,
/// modulo their number.
pub fn queue_order(songs: Vec<Song>, shuffle: bool, picks: &Vec<usize>) -> (r: Vec<Song>)
    ensures
        r@ == queue_order_spec(songs@, shuffle, picks@),
{
    if !shuffle {
        return songs;
    }
    let ghost all = songs@;
    assert(all.len() == songs.len());
    let mut left = songs;
    let mut out: Vec<Song> = Vec::new();
    let mut k: usize = 0;
    while left.len() > 0
        invariant
            out@ + picked(left@, picks@, k as nat) == picked(all, picks@, 0),
            k + left.len() == all.len(),
            all.len() <= usize::MAX,
        decreases left.len(),
    {
        let draw: usize = if k < picks.len() {
            picks[k]
        } else {
            0
        };
        let i = draw % left.len();
        let ghost before = left@;
        assert(i as int == pick_index(picks@, k as nat, before.len()));
        let song = left.remove(i);
        assert(picked(before, picks@, k as nat) == seq![song] + picked(left@, picks@, (k + 1) as nat));
        let ghost o = out@;
        out.push(song);
        assert(out@ + picked(left@, picks@, (k + 1) as nat) =~= o + (seq![song] + picked(left@, picks@, (k + 1) as nat)));
        k = k + 1;
    }
    assert(out@ =~= picked(all, picks@, 0));
    out
}

/// Shuffling takes the songs in the order the draws pick them: the first
/// song to join the queue is the one the first draw picks among all the
/// songs, and the rest are the remaining songs in the order the later draws
/// pick them.
pub proof fn law_shuffle_follows_draws(songs: Seq<Song>, picks: Seq<usize>)
    requires
        songs.len() > 0,
    ensures
        ({
            let i = pick_index(picks, 0, songs.len());
            let r = queue_order_spec(songs, true, picks);
            &&& 0 <= i < songs.len()
            &&& r.len() == songs.len()
            &&& r[0] == songs[i]
            &&& r.drop_first() == picked(songs.remove(i), picks, 1)
        }),
{
    lemma_picked_len(songs, picks, 0);
    let i = pick_index(picks, 0, songs.len());
    assert((seq![songs[i]] + picked(songs.remove(i), picks, 1)).drop_first() =~= picked(songs.remove(i), picks, 1));
}

/// Picking takes every song once: as many songs come out as went in.
pub proof fn lemma_picked_len(left: Seq<Song>, picks: Seq<usize>, k: nat)
    ensures
        picked(left, picks, k).len() == left.len(),
    decreases left.len(),
{
    if left.len() > 0 {
        let i = pick_index(picks, k, left.len());
        lemma_picked_len(left.remove(i), picks, k + 1);
    }
}

/// The key under which a search result's thumbnail is asked for: its album,
/// or its video id when it has none.
pub open spec fn request_key(song: Song) -> Seq<char> {
    match song.album {
        Some(a) => a@,
        None => song.yt_id@,
    }
}

/// The keys whose thumbnails were asked for while search results arrived.
pub struct ThumbnailRequests {
    pub asked: Vec<String>,
}

/// The text of a list of keys.
pub open spec fn key_views(v: Seq<String>) -> Seq<Seq<char>> {
    v.map_values(|s: String| s@)
}

impl ThumbnailRequests {
    /// No thumbnail asked for yet.
    pub fn new() -> (r: ThumbnailRequests)
        ensures
            r.asked@ == Seq::<String>::empty(),
    {
        ThumbnailRequests { asked: Vec::new() }
    }

    /// A search result arrived: its thumbnail is asked for when it has none
    /// and its key was not asked for before; the key is then remembered.
    /// Returns whether to ask.
    pub fn request(&mut self, song: &Song, has_thumbnail: bool) -> (ask: bool)
        ensures
            ask == (!has_thumbnail && !key_views(old(self).asked@).contains(request_key(*song))),
            key_views(final(self).asked@) == if ask {
                key_views(old(self).asked@).push(request_key(*song))
            } else {
                key_views(old(self).asked@)
            },
    {
        let key = match clone_opt_string(&song.album) {
            Some(a) => a,
            None => song.yt_id.clone(),
        };
        if has_thumbnail {
            return false;
        }
        let mut i: usize = 0;
        while i < self.asked.len()
            invariant
                i <= self.asked.len(),
                key@ == request_key(*song),
                forall|j: int| 0 <= j < i ==> key_views(self.asked@)[j] != key@,
            decreases self.asked.len() - i,
        {
            if self.asked[i] == key {
                assert(key_views(self.asked@)[i as int] == key@);
                return false;
            }
            i = i + 1;
        }
        let ghost before = self.asked@;
        self.asked.push(key);
        assert(key_views(self.asked@) =~= key_views(before).push(request_key(*song)));
        true
    }
}

} // verus!
