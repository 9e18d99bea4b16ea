//! The page that searches for songs to add to a playlist. Songs come from
//! the local library and from an internet search; the internet results wait
//! in a notice until the search ends or the notice is dismissed.
use std::collections::HashSet;
use vstd::prelude::*;
use crate::filemanager::DataDir;
use crate::music::{Song, Playlist};
use crate::text::push_str;
use crate::web::MetadataPool;

verus! {

broadcast use vstd::std_specs::hash::group_hash_axioms;

/// The state of the internet search.
pub enum SearchState {
    Searching,
    SearchFailed,
    /// The search is running and has found these songs so far.
    Received(Vec<Song>),
}

/// The songs an internet search has found so far.
pub open spec fn received_songs(n: Option<SearchState>) -> Seq<Song> {
    match n {
        Some(SearchState::Received(v)) => v@,
        _ => Seq::empty(),
    }
}

/// The listed search results, or none when nothing was listed yet.
pub open spec fn listed(r: Option<Vec<Song>>) -> Seq<Song> {
    match r {
        Some(v) => v@,
        None => Seq::empty(),
    }
}

/// The state of the search page.
pub struct SearchPage {
    /// The text of the search box.
    pub query: String,
    pub directories: DataDir,
    /// The songs listed below the search box, once any were listed.
    pub search_results: Option<Vec<Song>>,
    /// The playlist that songs are added to.
    pub playlist: Option<Playlist>,
    /// The ids of the songs the playlist already holds.
    pub existing_songs: HashSet<usize>,
    pub search_notify: Option<SearchState>,
}

impl SearchPage {
    /// A search page that adds songs to the playlist with the given id; its
    /// name shows as `Loading...` until it is known.
    pub fn new(directories: DataDir, playlist_id: usize) -> (r: SearchPage)
        ensures
            r.query@ == Seq::<char>::empty(),
            r.directories@ == directories@,
            r.search_results is None,
            r.playlist is Some,
            r.playlist->0.id == playlist_id,
            r.playlist->0.name@ == "Loading..."@,
            r.existing_songs@ == Set::<usize>::empty(),
            r.search_notify is None,
    {
        let mut name = String::new();
        push_str(&mut name, "Loading...");
        SearchPage {
            query: String::new(),
            directories,
            search_results: None,
            playlist: Some(Playlist { name, id: playlist_id }),
            existing_songs: HashSet::new(),
            search_notify: None,
        }
    }

    /// A song of the playlist, streamed from the library: it is listed and
    /// counted as already in the playlist.
    pub fn song_stream(&mut self, song: Song)
        ensures
            final(self).existing_songs@ == old(self).existing_songs@.insert(song.id),
            final(self).search_results is Some,
            final(self).search_results->0@ == listed(old(self).search_results).push(song),
            *final(self) == (SearchPage {
                existing_songs: final(self).existing_songs,
                search_results: final(self).search_results,
                ..*old(self)
            }),
    {
        self.existing_songs.insert(song.id);
        let mut results = match self.search_results.take() {
            Some(v) => v,
            None => Vec::new(),
        };
        results.push(song);
        self.search_results = Some(results);
    }

    /// The search box now holds `value`.
    pub fn text_input(&mut self, value: String)
        ensures
            *final(self) == (SearchPage { query: value, ..*old(self) }),
    {
        self.query = value;
    }

    /// A search was submitted: the internet search is marked as running and
    /// the listed results are cleared. When the downloader is known, the
    /// query is taken out of the search box and returned with the
    /// downloader's path, for the searches to run; otherwise the box keeps
    /// it and nothing is searched.
    pub fn submit_search(&mut self) -> (r: Option<(String, String)>)
        ensures
            final(self).search_notify matches Some(SearchState::Searching),
            old(self).search_results is None ==> final(self).search_results is None,
            old(self).search_results is Some ==> final(self).search_results is Some
                && final(self).search_results->0@ == Seq::<Song>::empty(),
            match r {
                Some((dlp, query)) => old(self).directories@.dlp_path == Some(dlp@) && query
                    == old(self).query && final(self).query@ == Seq::<char>::empty(),
                None => old(self).directories@.dlp_path is None && final(self).query
                    == old(self).query,
            },
            *final(self) == (SearchPage {
                query: final(self).query,
                search_results: final(self).search_results,
                search_notify: final(self).search_notify,
                ..*old(self)
            }),
    {
        self.search_notify = Some(SearchState::Searching);
        match self.search_results.take() {
            Some(v) => {
                let mut v = v;
                v.clear();
                self.search_results = Some(v);
            },
            None => {},
        }
        let dlp = match self.directories.get_dlp_ref() {
            Some(p) => p.clone(),
            None => return None,
        };
        let mut query = String::new();
        std::mem::swap(&mut query, &mut self.query);
        Some((dlp, query))
    }

    /// The internet search listed its results: the metadata of every one
    /// of them is to be collected, each once.
    pub fn load_search_results(&self, ids: Vec<String>) -> (r: MetadataPool)
        ensures
            r.ids@ == ids@,
            !r.running,
    {
        MetadataPool::new(ids)
    }

    /// A song was found: from the internet while a search notice shows, it
    /// joins the notice's songs; otherwise it is listed.
    pub fn search_result(&mut self, song: Song, from_online: bool)
        ensures
            from_online && old(self).search_notify is Some ==> {
                &&& final(self).search_notify matches Some(SearchState::Received(v))
                &&& final(self).search_notify matches Some(SearchState::Received(v)) && v@
                    == received_songs(old(self).search_notify).push(song)
                &&& final(self).search_results == old(self).search_results
            },
            !(from_online && old(self).search_notify is Some) ==> {
                &&& final(self).search_results is Some
                &&& final(self).search_results->0@ == listed(old(self).search_results).push(song)
                &&& final(self).search_notify == old(self).search_notify
            },
            *final(self) == (SearchPage {
                search_results: final(self).search_results,
                search_notify: final(self).search_notify,
                ..*old(self)
            }),
    {
        if from_online && self.search_notify.is_some() {
            let mut current = match self.search_notify.take() {
                Some(SearchState::Received(songs)) => songs,
                _ => Vec::new(),
            };
            current.push(song);
            self.search_notify = Some(SearchState::Received(current));
            return;
        }
        let mut results = match self.search_results.take() {
            Some(v) => v,
            None => Vec::new(),
        };
        results.push(song);
        self.search_results = Some(results);
    }

    /// Moves the songs of a search notice into the listed results.
    fn keep_received(&mut self)
        ensures
            old(self).search_notify matches Some(SearchState::Received(_)) ==> {
                &&& final(self).search_results is Some
                &&& final(self).search_results->0@ == listed(old(self).search_results)
                    + received_songs(old(self).search_notify)
            },
            !(old(self).search_notify matches Some(SearchState::Received(_)))
                ==> final(self).search_results == old(self).search_results,
            *final(self) == (SearchPage {
                search_results: final(self).search_results,
                search_notify: final(self).search_notify,
                ..*old(self)
            }),
    {
        let notify = self.search_notify.take();
        match notify {
            Some(SearchState::Received(songs)) => {
                let mut songs = songs;
                let mut results = match self.search_results.take() {
                    Some(v) => v,
                    None => Vec::new(),
                };
                results.append(&mut songs);
                self.search_results = Some(results);
            },
            other => {
                self.search_notify = other;
            },
        }
    }

    /// The internet search failed: the songs it found are kept in the list
    /// and the notice says it failed.
    pub fn dlp_warning(&mut self)
        ensures
            final(self).search_notify matches Some(SearchState::SearchFailed),
            old(self).search_notify matches Some(SearchState::Received(_)) ==> {
                &&& final(self).search_results is Some
                &&& final(self).search_results->0@ == listed(old(self).search_results)
                    + received_songs(old(self).search_notify)
            },
            !(old(self).search_notify matches Some(SearchState::Received(_)))
                ==> final(self).search_results == old(self).search_results,
            *final(self) == (SearchPage {
                search_results: final(self).search_results,
                search_notify: final(self).search_notify,
                ..*old(self)
            }),
    {
        self.keep_received();
        self.search_notify = Some(SearchState::SearchFailed);
    }

    /// The search notice was dismissed: the songs it found are kept in the
    /// list.
    pub fn remove_search_status(&mut self)
        ensures
            final(self).search_notify is None,
            old(self).search_notify matches Some(SearchState::Received(_)) ==> {
                &&& final(self).search_results is Some
                &&& final(self).search_results->0@ == listed(old(self).search_results)
                    + received_songs(old(self).search_notify)
            },
            !(old(self).search_notify matches Some(SearchState::Received(_)))
                ==> final(self).search_results == old(self).search_results,
            *final(self) == (SearchPage {
                search_results: final(self).search_results,
                search_notify: final(self).search_notify,
                ..*old(self)
            }),
    {
        self.keep_received();
        self.search_notify = None;
    }

    /// A song was added to the playlist.
    pub fn song_added_to_playlist(&mut self, song_id: usize)
        ensures
            final(self).existing_songs@ == old(self).existing_songs@.insert(song_id),
            *final(self) == (SearchPage { existing_songs: final(self).existing_songs, ..*old(self) }),
    {
        self.existing_songs.insert(song_id);
    }

    /// The listed songs that the playlist does not hold yet, in order.
    pub fn visible_results(&self) -> (r: Vec<Song>)
        ensures
            r@ == listed(self.search_results).filter(|s: Song| !self.existing_songs@.contains(s.id)),
    {
        let ghost pred = |s: Song| !self.existing_songs@.contains(s.id);
        let mut r: Vec<Song> = Vec::new();
        match &self.search_results {
            None => {
                assert(Seq::<Song>::empty().filter(pred) =~= Seq::<Song>::empty()) by {
                    reveal(Seq::filter);
                }
            },
            Some(results) => {
                let mut i: usize = 0;
                while i < results.len()
                    invariant
                        i <= results.len(),
                        pred == (|s: Song| !self.existing_songs@.contains(s.id)),
                        r@ == results@.take(i as int).filter(pred),
                    decreases results.len() - i,
                {
                    assert(results@.take(i + 1) =~= results@.take(i as int).push(results@[i as int]));
                    proof {
                        results@.take(i as int).lemma_filter_push(results@[i as int], pred);
                    }
                    if !self.existing_songs.contains(&results[i].id) {
                        r.push(results[i].clone());
                    }
                    i = i + 1;
                }
                assert(results@.take(results.len() as int) =~= results@);
            },
        }
        r
    }

    /// The id of the playlist songs are added to, or zero when there is
    /// none.
    pub fn target_playlist_id(&self) -> (r: usize)
        ensures
            r == match self.playlist {
                Some(p) => p.id,
                None => 0,
            },
    {
        match &self.playlist {
            Some(p) => p.id,
            None => 0,
        }
    }

    /// The page's title: the playlist's name, or `Search` when there is no
    /// playlist.
    pub fn title(&self) -> (r: String)
        ensures
            r@ == match self.playlist {
                Some(p) => p.name@,
                None => "Search"@,
            },
    {
        match &self.playlist {
            Some(p) => p.name.clone(),
            None => {
                let mut s = String::new();
                push_str(&mut s, "Search");
                s
            },
        }
    }
}

} // verus!
