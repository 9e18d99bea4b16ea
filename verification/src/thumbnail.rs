//! The registry of album thumbnails.
//!
//! Thumbnails are stored per identifier (see
//! [`Song::get_thumbnail_identifier`]). The registry remembers which
//! identifiers have a finished thumbnail and which are being downloaded, so
//! that each thumbnail is downloaded once.
use vstd::prelude::*;
use crate::music::{Song, thumbnail_identifier, opt_view};

verus! {

/// The three renderings of a thumbnail, by file path.
#[derive(Debug)]
pub struct Thumbnail {
    pub thumbnail: String,
    pub fullsize: String,
    pub blurred: String,
}

impl Clone for Thumbnail {
    fn clone(&self) -> (r: Self)
        ensures
            r == *self,
    {
        Thumbnail {
            thumbnail: self.thumbnail.clone(),
            fullsize: self.fullsize.clone(),
            blurred: self.blurred.clone(),
        }
    }
}

impl Thumbnail {
    /// The small rendering.
    pub fn small(&self) -> (r: &String)
        ensures
            *r == self.thumbnail,
    {
        &self.thumbnail
    }

    /// The thumbnail that shows the same image at every size.
    pub fn uniform(path: &String) -> (r: Thumbnail)
        ensures
            r.thumbnail == *path,
            r.fullsize == *path,
            r.blurred == *path,
    {
        Thumbnail { thumbnail: path.clone(), fullsize: path.clone(), blurred: path.clone() }
    }
}

/// Why a thumbnail could not be had.
#[derive(Debug, Clone, Copy, PartialEq, Eq, Structural)]
pub enum ThumbnailError {
    FailedToDownload,
    FailedToSpawnDLP,
    FailedToSave,
    FailedToRecv,
}

/// The finished thumbnails by identifier, and the identifiers being
/// downloaded.
pub struct RegistryModel {
    pub downloaded: Map<Seq<char>, Thumbnail>,
    pub downloading: Set<Seq<char>>,
}

/// Whether a download for `key` must start: it has neither a finished
/// thumbnail nor a running download.
pub open spec fn must_start(m: RegistryModel, key: Seq<char>) -> bool {
    !(m.downloaded.contains_key(key) || m.downloading.contains(key))
}

/// The registry after a request to download the thumbnail under `key`.
pub open spec fn begin_spec(m: RegistryModel, key: Seq<char>) -> RegistryModel {
    if must_start(m, key) {
        RegistryModel { downloaded: m.downloaded, downloading: m.downloading.insert(key) }
    } else {
        m
    }
}

/// The registry after the download of the thumbnail under `key` ended with
/// `result`.
pub open spec fn end_spec(m: RegistryModel, key: Seq<char>, result: Result<Thumbnail, ThumbnailError>) -> RegistryModel {
    RegistryModel {
        downloaded: match result {
            Ok(t) => m.downloaded.insert(key, t),
            Err(_) => m.downloaded,
        },
        downloading: m.downloading.remove(key),
    }
}

/// The identifier a song's thumbnail is stored under.
pub open spec fn song_identifier(s: Song) -> Seq<char> {
    thumbnail_identifier(opt_view(s.album), s.yt_id@)
}

/// The registry.
pub struct ThumbnailRegistry {
    downloaded: Vec<(String, Thumbnail)>,
    downloading: Vec<String>,
}

/// The map that a list of unique keyed entries stands for.
pub open spec fn entries_map(e: Seq<(String, Thumbnail)>) -> Map<Seq<char>, Thumbnail>
    decreases e.len(),
{
    if e.len() == 0 {
        Map::empty()
    } else {
        entries_map(e.drop_last()).insert(e.last().0@, e.last().1)
    }
}

/// Whether the keys of a list of entries are distinct.
pub open spec fn keys_unique(e: Seq<(String, Thumbnail)>) -> bool {
    forall|i: int, j: int| 0 <= i < j < e.len() ==> (#[trigger] e[i]).0@ != (#[trigger] e[j]).0@
}

/// Whether the strings of a list are distinct.
pub open spec fn views_unique(e: Seq<String>) -> bool {
    forall|i: int, j: int| 0 <= i < j < e.len() ==> (#[trigger] e[i])@ != (#[trigger] e[j])@
}

/// The set of texts of a list of strings.
pub open spec fn view_set(e: Seq<String>) -> Set<Seq<char>> {
    Set::new(|k: Seq<char>| exists|i: int| 0 <= i < e.len() && (#[trigger] e[i])@ == k)
}

impl View for ThumbnailRegistry {
    type V = RegistryModel;

    closed spec fn view(&self) -> RegistryModel {
        RegistryModel {
            downloaded: entries_map(self.downloaded@),
            downloading: view_set(self.downloading@),
        }
    }
}

/// An entry at index `i` is in the map, with its value.
proof fn lemma_entries_map_index(e: Seq<(String, Thumbnail)>, i: int)
    requires
        keys_unique(e),
        0 <= i < e.len(),
    ensures
        entries_map(e).contains_key(e[i].0@),
        entries_map(e)[e[i].0@] == e[i].1,
    decreases e.len(),
{
    let t = e.drop_last();
    if i < e.len() - 1 {
        assert(keys_unique(t)) by {
            assert forall|a: int, b: int| 0 <= a < b < t.len() implies (#[trigger] t[a]).0@ != (#[trigger] t[b]).0@ by {
                assert(t[a] == e[a]);
                assert(t[b] == e[b]);
            }
        }
        assert(t[i] == e[i]);
        lemma_entries_map_index(t, i);
        assert(e.last() == e[e.len() - 1]);
    }
}

/// A key that no entry has is not in the map.
proof fn lemma_entries_map_absent(e: Seq<(String, Thumbnail)>, k: Seq<char>)
    requires
        forall|i: int| 0 <= i < e.len() ==> (#[trigger] e[i]).0@ != k,
    ensures
        !entries_map(e).contains_key(k),
    decreases e.len(),
{
    if e.len() > 0 {
        let t = e.drop_last();
        assert forall|i: int| 0 <= i < t.len() implies (#[trigger] t[i]).0@ != k by {
            assert(t[i] == e[i]);
        }
        lemma_entries_map_absent(t, k);
        assert(e.last() == e[e.len() - 1]);
    }
}

impl ThumbnailRegistry {
    #[verifier::type_invariant]
    closed spec fn inv(self) -> bool {
        keys_unique(self.downloaded@) && views_unique(self.downloading@)
    }

    /// An empty registry.
    pub fn new() -> (r: ThumbnailRegistry)
        ensures
            r@.downloaded == Map::<Seq<char>, Thumbnail>::empty(),
            r@.downloading == Set::<Seq<char>>::empty(),
    {
        let r = ThumbnailRegistry { downloaded: Vec::new(), downloading: Vec::new() };
        assert(r@.downloaded =~= Map::<Seq<char>, Thumbnail>::empty());
        assert(r@.downloading =~= Set::<Seq<char>>::empty());
        r
    }
    /// A registry that knows the thumbnails already stored, each under its
    /// identifier; a later entry for the same identifier wins.
    pub fn from_saved(saved: Vec<(String, Thumbnail)>) -> (r: ThumbnailRegistry)
        ensures
            r@.downloaded == entries_map(saved@),
            r@.downloading == Set::<Seq<char>>::empty(),
    {
        let mut r = ThumbnailRegistry::new();
        let mut i: usize = 0;
        while i < saved.len()
            invariant
                i <= saved.len(),
                r@.downloaded == entries_map(saved@.take(i as int)),
                r@.downloading == Set::<Seq<char>>::empty(),
            decreases saved.len() - i,
        {
            assert(saved@.take(i + 1).drop_last() =~= saved@.take(i as int));
            let key = saved[i].0.clone();
            let thumbnail = saved[i].1.clone();
            r.insert(key, thumbnail);
            i = i + 1;
        }
        assert(saved@.take(saved.len() as int) =~= saved@);
        r
    }


    /// The index of the entry for `key`.
    fn find_entry(&self, key: &String) -> (r: Option<usize>)
        ensures
            match r {
                Some(i) => i < self.downloaded@.len() && self.downloaded@[i as int].0@ == key@,
                None => forall|i: int| 0 <= i < self.downloaded@.len() ==> (#[trigger] self.downloaded@[i]).0@ != key@,
            },
    {
        let mut i: usize = 0;
        while i < self.downloaded.len()
            invariant
                i <= self.downloaded.len(),
                forall|j: int| 0 <= j < i ==> (#[trigger] self.downloaded@[j]).0@ != key@,
            decreases self.downloaded.len() - i,
        {
            if self.downloaded[i].0 == *key {
                return Some(i);
            }
            i = i + 1;
        }
        None
    }

    /// The index of `key` among the identifiers being downloaded.
    fn find_downloading(&self, key: &String) -> (r: Option<usize>)
        ensures
            match r {
                Some(i) => i < self.downloading@.len() && self.downloading@[i as int]@ == key@,
                None => forall|i: int| 0 <= i < self.downloading@.len() ==> (#[trigger] self.downloading@[i])@ != key@,
            },
    {
        let mut i: usize = 0;
        while i < self.downloading.len()
            invariant
                i <= self.downloading.len(),
                forall|j: int| 0 <= j < i ==> (#[trigger] self.downloading@[j])@ != key@,
            decreases self.downloading.len() - i,
        {
            if self.downloading[i] == *key {
                return Some(i);
            }
            i = i + 1;
        }
        None
    }

    /// The finished thumbnail stored under `key`.
    pub fn get(&self, key: &String) -> (r: Option<Thumbnail>)
        ensures
            r == (if self@.downloaded.contains_key(key@) {
                Some(self@.downloaded[key@])
            } else {
                None
            }),
    {
        proof { use_type_invariant(self); }
        match self.find_entry(key) {
            Some(i) => {
                proof { lemma_entries_map_index(self.downloaded@, i as int); }
                Some(self.downloaded[i].1.clone())
            },
            None => {
                proof { lemma_entries_map_absent(self.downloaded@, key@); }
                None
            },
        }
    }

    /// Stores a finished thumbnail under `key`, replacing any earlier one.
    pub fn insert(&mut self, key: String, thumbnail: Thumbnail)
        ensures
            final(self)@.downloaded == old(self)@.downloaded.insert(key@, thumbnail),
            final(self)@.downloading == old(self)@.downloading,
    {
        proof { use_type_invariant(&*self); }
        let ghost old_entries = self.downloaded@;
        let ghost old_map = entries_map(old_entries);
        let ghost k = key@;
        let ghost t = thumbnail;
        let found = self.find_entry(&key);
        let mut entries: Vec<(String, Thumbnail)> = Vec::new();
        std::mem::swap(&mut entries, &mut self.downloaded);
        match found {
            Some(i) => {
                let _old = entries.remove(i);
                proof {
                    assert forall|a: int| 0 <= a < entries@.len() implies (#[trigger] entries@[a]).0@ != k by {
                        if a < i {
                            assert(entries@[a] == old_entries[a]);
                        } else {
                            assert(entries@[a] == old_entries[a + 1]);
                        }
                    }
                }
            },
            None => {},
        }
        let ghost rest = entries@;
        proof {
            assert(keys_unique(rest)) by {
                assert forall|a: int, b: int| 0 <= a < b < rest.len() implies (#[trigger] rest[a]).0@ != (#[trigger] rest[b]).0@ by {
                    match found {
                        Some(i) => {
                            let a2 = if a < i { a } else { a + 1 };
                            let b2 = if b < i { b } else { b + 1 };
                            assert(rest[a] == old_entries[a2]);
                            assert(rest[b] == old_entries[b2]);
                        },
                        None => {
                            assert(rest[a] == old_entries[a]);
                            assert(rest[b] == old_entries[b]);
                        },
                    }
                }
            }
            assert(entries_map(rest).insert(k, t) =~= old_map.insert(k, t)) by {
                assert forall|x: Seq<char>| #![trigger entries_map(rest).contains_key(x)] x != k implies
                    (entries_map(rest).contains_key(x) == old_map.contains_key(x)
                    && (old_map.contains_key(x) ==> entries_map(rest)[x] == old_map[x])) by {
                    if old_map.contains_key(x) {
                        lemma_entries_map_key_index(old_entries, x);
                        let j = choose|j: int| 0 <= j < old_entries.len() && old_entries[j].0@ == x;
                        lemma_entries_map_index(old_entries, j);
                        let j2 = match found { Some(i) => if j < i { j } else { j - 1 }, None => j };
                        match found {
                            Some(i) => { assert(j != i); },
                            None => {},
                        }
                        assert(rest[j2] == old_entries[j]);
                        lemma_entries_map_index(rest, j2);
                    }
                    if entries_map(rest).contains_key(x) {
                        lemma_entries_map_key_index(rest, x);
                        let j = choose|j: int| 0 <= j < rest.len() && rest[j].0@ == x;
                        let j2 = match found { Some(i) => if j < i { j } else { j + 1 }, None => j };
                        assert(rest[j] == old_entries[j2]);
                        lemma_entries_map_index(old_entries, j2);
                    }
                }
            }
        }
        entries.push((key, thumbnail));
        proof {
            let e = entries@;
            assert(e.drop_last() =~= rest);
            assert forall|a: int, b: int| 0 <= a < b < e.len() implies (#[trigger] e[a]).0@ != (#[trigger] e[b]).0@ by {
                if b == e.len() - 1 {
                    assert(e[a] == rest[a]);
                } else {
                    assert(e[a] == rest[a]);
                    assert(e[b] == rest[b]);
                }
            }
        }
        self.downloaded = entries;
    }

    /// Handles a request to download a song's thumbnail. Returns whether the
    /// download must start, which is when its identifier has neither a
    /// finished thumbnail nor a running download; the identifier then counts
    /// as being downloaded.
    pub fn begin_download(&mut self, song: &Song) -> (start: bool)
        ensures
            start == must_start(old(self)@, song_identifier(*song)),
            final(self)@ == begin_spec(old(self)@, song_identifier(*song)),
    {
        proof { use_type_invariant(&*self); }
        let key = song.get_thumbnail_identifier();
        let known = self.get(&key).is_some();
        let running = self.find_downloading(&key);
        if known {
            return false;
        }
        match running {
            Some(i) => {
                assert(self@.downloading.contains(key@)) by {
                    assert(self.downloading@[i as int]@ == key@);
                }
                false
            },
            None => {
                let ghost before = self.downloading@;
                assert(!self@.downloading.contains(key@));
                let mut ids: Vec<String> = Vec::new();
                std::mem::swap(&mut ids, &mut self.downloading);
                ids.push(key);
                proof {
                    assert forall|a: int, b: int| 0 <= a < b < ids@.len() implies (#[trigger] ids@[a])@ != (#[trigger] ids@[b])@ by {
                        assert(ids@[a] == before[a]);
                        if b < before.len() {
                            assert(ids@[b] == before[b]);
                        }
                    }
                    assert(view_set(ids@) =~= view_set(before).insert(key@)) by {
                        assert forall|x: Seq<char>| view_set(ids@).contains(x) == view_set(before).insert(key@).contains(x) by {
                            if view_set(ids@).contains(x) {
                                let j = choose|j: int| 0 <= j < ids@.len() && (#[trigger] ids@[j])@ == x;
                                if j < before.len() {
                                    assert(ids@[j] == before[j]);
                                }
                            }
                            if view_set(before).contains(x) {
                                let j = choose|j: int| 0 <= j < before.len() && (#[trigger] before[j])@ == x;
                                assert(ids@[j] == before[j]);
                            }
                            if x == key@ {
                                assert(ids@[before.len() as int]@ == key@);
                            }
                        }
                    }
                }
                self.downloading = ids;
                true
            },
        }
    }

    /// Handles the end of a thumbnail download for `song`. The identifier no
    /// longer counts as being downloaded, and a successful result is stored.
    /// Returns whether the identifier had been counted as being downloaded.
    pub fn end_download(&mut self, song: &Song, result: &Result<Thumbnail, ThumbnailError>) -> (tracked_download: bool)
        ensures
            tracked_download == old(self)@.downloading.contains(song_identifier(*song)),
            final(self)@ == end_spec(old(self)@, song_identifier(*song), *result),
    {
        proof { use_type_invariant(&*self); }
        let key = song.get_thumbnail_identifier();
        let found = self.find_downloading(&key);
        let tracked_download = match found {
            Some(i) => {
                let ghost before = self.downloading@;
                let mut ids: Vec<String> = Vec::new();
                std::mem::swap(&mut ids, &mut self.downloading);
                let _gone = ids.remove(i);
                proof {
                    assert forall|a: int, b: int| 0 <= a < b < ids@.len() implies (#[trigger] ids@[a])@ != (#[trigger] ids@[b])@ by {
                        let a2 = if a < i { a } else { a + 1 };
                        let b2 = if b < i { b } else { b + 1 };
                        assert(ids@[a] == before[a2]);
                        assert(ids@[b] == before[b2]);
                    }
                    assert(view_set(ids@) =~= view_set(before).remove(key@)) by {
                        assert forall|x: Seq<char>| view_set(ids@).contains(x) == view_set(before).remove(key@).contains(x) by {
                            if view_set(ids@).contains(x) {
                                let j = choose|j: int| 0 <= j < ids@.len() && (#[trigger] ids@[j])@ == x;
                                let j2 = if j < i { j } else { j + 1 };
                                assert(ids@[j] == before[j2]);
                                assert(j2 != i);
                            }
                            if view_set(before).contains(x) && x != key@ {
                                let j = choose|j: int| 0 <= j < before.len() && (#[trigger] before[j])@ == x;
                                assert(j != i);
                                let j2 = if j < i { j } else { j - 1 };
                                assert(ids@[j2] == before[j]);
                            }
                        }
                    }
                    assert(view_set(before).contains(key@)) by {
                        assert(before[i as int]@ == key@);
                    }
                }
                self.downloading = ids;
                true
            },
            None => {
                assert(!self@.downloading.contains(key@));
                assert(self@.downloading =~= self@.downloading.remove(key@));
                false
            },
        };
        match result {
            Ok(t) => {
                self.insert(key, t.clone());
            },
            Err(_) => {},
        }
        tracked_download
    }

    /// The finished thumbnail for a song, if there is one.
    pub fn lookup(&self, song: &Song) -> (r: Option<Thumbnail>)
        ensures
            r == (if self@.downloaded.contains_key(song_identifier(*song)) {
                Some(self@.downloaded[song_identifier(*song)])
            } else {
                None
            }),
    {
        let key = song.get_thumbnail_identifier();
        self.get(&key)
    }
}

/// A thumbnail that finished downloading is what a later lookup finds.
pub proof fn law_lookup_after_download(m: RegistryModel, key: Seq<char>, t: Thumbnail)
    ensures
        end_spec(m, key, Ok(t)).downloaded.contains_key(key),
        end_spec(m, key, Ok(t)).downloaded[key] == t,
{
}

/// A thumbnail is not downloaded twice: once a download has started, or once
/// the thumbnail is stored, a new request starts nothing.
pub proof fn law_download_once(m: RegistryModel, key: Seq<char>, t: Thumbnail)
    ensures
        !must_start(begin_spec(m, key), key),
        !must_start(end_spec(m, key, Ok(t)), key),
{
}

/// A failed download can be retried: afterwards a request starts a new
/// download unless a thumbnail was stored before.
pub proof fn law_retry_after_failure(m: RegistryModel, key: Seq<char>, e: ThumbnailError)
    ensures
        must_start(end_spec(m, key, Err(e)), key) == !m.downloaded.contains_key(key),
{
}

/// What happens to the registry: a download is asked for, or one ends.
pub enum RegistryEvent {
    Begin(Seq<char>),
    End(Seq<char>, Result<Thumbnail, ThumbnailError>),
}

/// The registry after one event.
pub open spec fn registry_step(m: RegistryModel, e: RegistryEvent) -> RegistryModel {
    match e {
        RegistryEvent::Begin(k) => begin_spec(m, k),
        RegistryEvent::End(k, r) => end_spec(m, k, r),
    }
}

/// The registry after a sequence of events.
pub open spec fn registry_run(m: RegistryModel, events: Seq<RegistryEvent>) -> RegistryModel
    decreases events.len(),
{
    if events.len() == 0 {
        m
    } else {
        registry_step(registry_run(m, events.drop_last()), events.last())
    }
}

/// Whether a download for `key` ended well among the events.
pub open spec fn downloaded_in(events: Seq<RegistryEvent>, key: Seq<char>) -> bool
    decreases events.len(),
{
    events.len() > 0 && (downloaded_in(events.drop_last(), key) || match events.last() {
        RegistryEvent::End(k, Ok(_)) => k == key,
        _ => false,
    })
}

/// Whether a download for `key` was asked for among the events.
pub open spec fn asked_in(events: Seq<RegistryEvent>, key: Seq<char>) -> bool
    decreases events.len(),
{
    events.len() > 0 && (asked_in(events.drop_last(), key) || match events.last() {
        RegistryEvent::Begin(k) => k == key,
        _ => false,
    })
}

/// The registry thread from its start with the thumbnails already stored:
/// a lookup finds a thumbnail exactly for the identifiers stored at the
/// start or downloaded well since; a download is in flight only for an
/// identifier that was asked for; and at most one download per identifier
/// is in flight, since a request for one that is known or in flight starts
/// nothing.
pub proof fn law_registry_run(saved: Map<Seq<char>, Thumbnail>, events: Seq<RegistryEvent>, key: Seq<char>)
    ensures
        ({
            let m = registry_run(RegistryModel { downloaded: saved, downloading: Set::empty() }, events);
            &&& m.downloaded.contains_key(key) <==> (saved.contains_key(key) || downloaded_in(events, key))
            &&& m.downloading.contains(key) ==> asked_in(events, key)
            &&& !must_start(begin_spec(m, key), key)
            &&& (must_start(m, key) || begin_spec(m, key) == m)
        }),
    decreases events.len(),
{
    if events.len() > 0 {
        law_registry_run(saved, events.drop_last(), key);
    }
}

/// A key in the map belongs to some entry.
proof fn lemma_entries_map_key_index(e: Seq<(String, Thumbnail)>, k: Seq<char>)
    requires
        entries_map(e).contains_key(k),
    ensures
        exists|j: int| 0 <= j < e.len() && e[j].0@ == k,
    decreases e.len(),
{
    if e.len() > 0 {
        let t = e.drop_last();
        if e.last().0@ == k {
            assert(e[e.len() - 1].0@ == k);
        } else {
            lemma_entries_map_key_index(t, k);
            let j = choose|j: int| 0 <= j < t.len() && t[j].0@ == k;
            assert(e[j] == t[j]);
        }
    }
}

/// The square at the centre of an image of the given size: its side and the
/// offsets of its corner.
pub fn centre_square(width: u32, height: u32) -> (r: (u32, u32, u32))
    ensures
        r.2 == (if width <= height { width } else { height }),
        r.0 == (width - r.2) / 2,
        r.1 == (height - r.2) / 2,
{
    let size = if width <= height { width } else { height };
    ((width - size) / 2, (height - size) / 2, size)
}

} // verus!
