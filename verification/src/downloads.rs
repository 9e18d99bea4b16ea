//! Scheduling of song downloads.
//!
//! The interface asks for downloads one song at a time. A download starts at
//! once while few enough are running; otherwise the song waits in a queue and
//! is asked for again when a running download ends.
use vstd::prelude::*;
use crate::music::{Song, SongKey, song_key};

verus! {

/// What happens to a requested download.
#[derive(Debug)]
pub enum DownloadStep {
    /// Nothing: the song is already on disk, already downloading, or already
    /// waiting.
    Ignore,
    /// The song waits until a running download ends.
    Queued,
    /// The download of this song starts now.
    Start(Song),
}

/// The running downloads, by video id, and the songs that wait.
pub struct DownloadModel {
    pub active: Seq<Seq<char>>,
    pub queued: Seq<Song>,
}

/// Whether the video id `id` is among the running downloads.
pub open spec fn is_active(m: DownloadModel, id: Seq<char>) -> bool {
    m.active.contains(id)
}

/// Whether a song equal to `s` waits.
pub open spec fn is_queued(m: DownloadModel, s: Song) -> bool {
    exists|i: int| 0 <= i < m.queued.len() && song_key(#[trigger] m.queued[i]) == song_key(s)
}

/// What a request for `song` does, given whether its file is already on
/// disk and the number of downloads that may run at once.
pub open spec fn request_spec(m: DownloadModel, song: Song, on_disk: bool, max: usize) -> (
    DownloadModel,
    DownloadStep,
) {
    let full = m.active.len() >= max;
    if on_disk || is_active(m, song.yt_id@) {
        (m, DownloadStep::Ignore)
    } else if is_queued(m, song) && !full {
        (m, DownloadStep::Ignore)
    } else if full {
        if is_queued(m, song) {
            (m, DownloadStep::Queued)
        } else {
            (DownloadModel { active: m.active, queued: m.queued.push(song) }, DownloadStep::Queued)
        }
    } else {
        (DownloadModel { active: m.active.push(song.yt_id@), queued: m.queued }, DownloadStep::Start(song))
    }
}

/// What the end of the download of `song` does: its video id leaves the
/// running downloads, and the first waiting song, if any, is taken out of
/// the queue to be requested again.
pub open spec fn finish_spec(m: DownloadModel, song: Song) -> (DownloadModel, Option<Song>) {
    let active = m.active.filter(|x: Seq<char>| x != song.yt_id@);
    if m.queued.len() > 0 {
        (DownloadModel { active, queued: m.queued.drop_first() }, Some(m.queued[0]))
    } else {
        (DownloadModel { active, queued: m.queued }, None)
    }
}

/// What requests for several songs, in order, do: each song with whether
/// its file is already on disk.
pub open spec fn request_all_spec(m: DownloadModel, requests: Seq<(Song, bool)>, max: usize) -> (
    DownloadModel,
    Seq<DownloadStep>,
)
    decreases requests.len(),
{
    if requests.len() == 0 {
        (m, Seq::empty())
    } else {
        let (m1, steps) = request_all_spec(m, requests.drop_last(), max);
        let (m2, step) = request_spec(m1, requests.last().0, requests.last().1, max);
        (m2, steps.push(step))
    }
}

/// No video id runs twice and no song waits twice.
pub open spec fn download_model_wf(m: DownloadModel) -> bool {
    &&& m.active.no_duplicates()
    &&& forall|i: int, j: int|
        0 <= i < j < m.queued.len() ==> song_key(#[trigger] m.queued[i]) != song_key(
            #[trigger] m.queued[j],
        )
}

/// The scheduler of downloads.
pub struct DownloadScheduler {
    active: Vec<String>,
    queued: Vec<Song>,
}

impl View for DownloadScheduler {
    type V = DownloadModel;

    closed spec fn view(&self) -> DownloadModel {
        DownloadModel { active: self.active@.map_values(|s: String| s@), queued: self.queued@ }
    }
}

impl DownloadScheduler {
    #[verifier::type_invariant]
    closed spec fn inv(self) -> bool {
        download_model_wf(self@)
    }

    /// A scheduler with nothing running and nothing waiting.
    pub fn new() -> (r: DownloadScheduler)
        ensures
            r@.active.len() == 0,
            r@.queued.len() == 0,
    {
        let r = DownloadScheduler { active: Vec::new(), queued: Vec::new() };
        assert(r@.active =~= Seq::<Seq<char>>::empty());
        r
    }

    /// The number of downloads running.
    pub fn active_count(&self) -> (r: usize)
        ensures
            r == self@.active.len(),
    {
        self.active.len()
    }

    /// Whether the download of the video `yt_id` is running.
    pub fn is_downloading(&self, yt_id: &String) -> (r: bool)
        ensures
            r == is_active(self@, yt_id@),
    {
        let mut i: usize = 0;
        while i < self.active.len()
            invariant
                i <= self.active.len(),
                forall|j: int| 0 <= j < i ==> self@.active[j] != yt_id@,
            decreases self.active.len() - i,
        {
            if self.active[i] == *yt_id {
                assert(self@.active[i as int] == yt_id@);
                return true;
            }
            i = i + 1;
        }
        false
    }

    /// Whether a song equal to `song` waits.
    pub fn is_waiting(&self, song: &Song) -> (r: bool)
        ensures
            r == is_queued(self@, *song),
    {
        let mut i: usize = 0;
        while i < self.queued.len()
            invariant
                i <= self.queued.len(),
                forall|j: int| 0 <= j < i ==> song_key(#[trigger] self@.queued[j]) != song_key(*song),
            decreases self.queued.len() - i,
        {
            if self.queued[i].same_as(song) {
                return true;
            }
            i = i + 1;
        }
        false
    }

    /// Handles a request to download `song`. `on_disk` tells whether the
    /// song's file already exists; `max` is the number of downloads that may
    /// run at once.
    pub fn request(&mut self, song: Song, on_disk: bool, max: usize) -> (step: DownloadStep)
        ensures
            (final(self)@, step) == request_spec(old(self)@, song, on_disk, max),
    {
        proof { use_type_invariant(&*self); }
        let ghost m = self@;
        assert(self@.active.len() == self.active@.len());
        if on_disk {
            return DownloadStep::Ignore;
        }
        if self.is_downloading(&song.yt_id) {
            return DownloadStep::Ignore;
        }
        let full = self.active.len() >= max;
        let waiting = self.is_waiting(&song);
        if waiting && !full {
            return DownloadStep::Ignore;
        }
        if full {
            if !waiting {
                let ghost before = self.queued@;
                let mut queued: Vec<Song> = Vec::new();
                std::mem::swap(&mut queued, &mut self.queued);
                queued.push(song);
                proof {
                    assert forall|i: int, j: int|
                        0 <= i < j < queued@.len() implies song_key(#[trigger] queued@[i]) != song_key(
                        #[trigger] queued@[j],
                    ) by {
                        if j == before.len() {
                            assert(queued@[i] == before[i]);
                        } else {
                            assert(queued@[i] == before[i]);
                            assert(queued@[j] == before[j]);
                        }
                    }
                }
                self.queued = queued;
            }
            DownloadStep::Queued
        } else {
            let ghost before = self.active@;
            let id = song.yt_id.clone();
            let mut active: Vec<String> = Vec::new();
            std::mem::swap(&mut active, &mut self.active);
            active.push(id);
            proof {
                let v = active@.map_values(|s: String| s@);
                assert(v =~= before.map_values(|s: String| s@).push(song.yt_id@));
                assert(v.no_duplicates()) by {
                    assert forall|i: int, j: int| 0 <= i < v.len() && 0 <= j < v.len() && i != j implies v[i] != v[j] by {
                        if i < before.len() && j < before.len() {
                            assert(v[i] == m.active[i]);
                            assert(v[j] == m.active[j]);
                        } else if i < before.len() {
                            assert(v[i] == m.active[i]);
                        } else {
                            assert(v[j] == m.active[j]);
                        }
                    }
                }
            }
            self.active = active;
            DownloadStep::Start(song)
        }
    }

    /// Requests every song of a list, in order: each song with whether its
    /// file is already on disk. Returns what happened to each.
    pub fn request_all(&mut self, requests: Vec<(Song, bool)>, max: usize) -> (steps: Vec<DownloadStep>)
        ensures
            (final(self)@, steps@) == request_all_spec(old(self)@, requests@, max),
    {
        let mut steps: Vec<DownloadStep> = Vec::new();
        let mut i: usize = 0;
        while i < requests.len()
            invariant
                i <= requests.len(),
                (self@, steps@) == request_all_spec(old(self)@, requests@.take(i as int), max),
            decreases requests.len() - i,
        {
            assert(requests@.take(i + 1).drop_last() =~= requests@.take(i as int));
            let song = requests[i].0.clone();
            let on_disk = requests[i].1;
            let step = self.request(song, on_disk, max);
            steps.push(step);
            i = i + 1;
        }
        assert(requests@.take(requests.len() as int) =~= requests@);
        steps
    }

    /// Handles the end of the download of `song`, whether it succeeded or
    /// failed. Returns the waiting song to request next, if any.
    pub fn finish(&mut self, song: &Song) -> (next: Option<Song>)
        ensures
            (final(self)@, next) == finish_spec(old(self)@, *song),
    {
        proof { use_type_invariant(&*self); }
        let ghost m = self@;
        let ghost pred = |x: Seq<char>| x != song.yt_id@;
        let mut active: Vec<String> = Vec::new();
        let mut i: usize = 0;
        while i < self.active.len()
            invariant
                i <= self.active.len(),
                pred == (|x: Seq<char>| x != song.yt_id@),
                m == self@,
                active@.map_values(|s: String| s@) == m.active.take(i as int).filter(pred),
            decreases self.active.len() - i,
        {
            let ghost before = active@;
            proof {
                m.active.take(i as int).lemma_filter_push(m.active[i as int], pred);
                assert(m.active.take(i + 1) =~= m.active.take(i as int).push(m.active[i as int]));
                assert(m.active[i as int] == self.active@[i as int]@);
            }
            if self.active[i] != song.yt_id {
                active.push(self.active[i].clone());
                assert(active@.map_values(|s: String| s@) =~= before.map_values(|s: String| s@).push(
                    m.active[i as int],
                ));
            }
            i = i + 1;
        }
        assert(m.active.take(m.active.len() as int) =~= m.active);
        proof {
            lemma_filter_no_duplicates(m.active, pred);
        }
        let ghost queued_before = self.queued@;
        let mut queued: Vec<Song> = Vec::new();
        std::mem::swap(&mut queued, &mut self.queued);
        let next = if queued.len() > 0 {
            let first = queued.remove(0);
            Some(first)
        } else {
            None
        };
        proof {
            assert forall|i: int, j: int|
                0 <= i < j < queued@.len() implies song_key(#[trigger] queued@[i]) != song_key(
                #[trigger] queued@[j],
            ) by {
                if queued_before.len() > 0 {
                    assert(queued@[i] == queued_before[i + 1]);
                    assert(queued@[j] == queued_before[j + 1]);
                }
            }
            if queued_before.len() > 0 {
                assert(queued@ =~= queued_before.drop_first());
            }
        }
        self.queued = queued;
        self.active = active;
        next
    }
}

/// Filtering keeps a sequence free of duplicates.
pub proof fn lemma_filter_no_duplicates(s: Seq<Seq<char>>, p: spec_fn(Seq<char>) -> bool)
    requires
        s.no_duplicates(),
    ensures
        s.filter(p).no_duplicates(),
    decreases s.len(),
{
    reveal(Seq::filter);
    if s.len() > 0 {
        let t = s.drop_last();
        assert(t.no_duplicates()) by {
            assert forall|i: int, j: int| 0 <= i < t.len() && 0 <= j < t.len() && i != j implies t[i] != t[j] by {
                assert(t[i] == s[i]);
                assert(t[j] == s[j]);
            }
        }
        lemma_filter_no_duplicates(t, p);
        if p(s.last()) {
            let f = t.filter(p);
            assert forall|k: int| 0 <= k < f.len() implies f[k] != s.last() by {
                t.lemma_filter_contains_rev(p, f[k]);
                assert(f.contains(f[k]));
                assert(t.contains(f[k]));
                let w = choose|w: int| 0 <= w < t.len() && t[w] == f[k];
                assert(s[w] == t[w]);
                assert(s[s.len() - 1] == s.last());
            }
            let g = f.push(s.last());
            assert forall|i: int, j: int| 0 <= i < g.len() && 0 <= j < g.len() && i != j implies g[i] != g[j] by {
                if i < f.len() && j < f.len() {
                } else if i < f.len() {
                    assert(g[j] == s.last());
                } else {
                    assert(g[i] == s.last());
                }
            }
        }
    }
}

} // verus!

verus! {

/// With a fixed limit, at most `max` downloads run at once: a request
/// starts a download only while fewer than `max` run.
pub proof fn law_concurrency_bound(m: DownloadModel, song: Song, on_disk: bool, max: usize)
    requires
        m.active.len() <= max,
    ensures
        request_spec(m, song, on_disk, max).0.active.len() <= max,
{
}

/// A download that starts is recorded as running, and a song whose file is
/// on disk is never downloaded again.
pub proof fn law_start_records(m: DownloadModel, song: Song, on_disk: bool, max: usize)
    ensures
        request_spec(m, song, on_disk, max).1 matches DownloadStep::Start(s) ==> s == song
            && is_active(request_spec(m, song, on_disk, max).0, song.yt_id@),
        on_disk ==> request_spec(m, song, on_disk, max).1 is Ignore,
{
    let m2 = request_spec(m, song, on_disk, max).0;
    if request_spec(m, song, on_disk, max).1 is Start {
        assert(m2.active[m2.active.len() - 1] == song.yt_id@);
    }
}

/// A song that is neither on disk, running nor waiting starts at once while
/// fewer than `max` downloads run; once `max` run, it waits at the end of
/// the queue and nothing new starts.
pub proof fn law_request_starts_or_waits(m: DownloadModel, song: Song, max: usize)
    requires
        !is_active(m, song.yt_id@),
        !is_queued(m, song),
    ensures
        m.active.len() < max ==> request_spec(m, song, false, max) == (
            DownloadModel { active: m.active.push(song.yt_id@), queued: m.queued },
            DownloadStep::Start(song),
        ),
        m.active.len() >= max ==> request_spec(m, song, false, max) == (
            DownloadModel { active: m.active, queued: m.queued.push(song) },
            DownloadStep::Queued,
        ),
{
}

/// A song that already waits is not queued twice: while the limit is
/// reached it is answered `Queued` and nothing changes.
pub proof fn law_waiting_song_not_queued_twice(m: DownloadModel, song: Song, max: usize)
    requires
        !is_active(m, song.yt_id@),
        is_queued(m, song),
    ensures
        request_spec(m, song, false, max).0 == m,
        m.active.len() >= max ==> request_spec(m, song, false, max).1 is Queued,
        m.active.len() < max ==> request_spec(m, song, false, max).1 is Ignore,
{
}

/// The end of one download leaves the other running downloads running.
pub proof fn law_finish_keeps_others(m: DownloadModel, song: Song, id: Seq<char>)
    requires
        is_active(m, id),
        id != song.yt_id@,
    ensures
        is_active(finish_spec(m, song).0, id),
{
    let p = |x: Seq<char>| x != song.yt_id@;
    let k = choose|k: int| 0 <= k < m.active.len() && m.active[k] == id;
    m.active.lemma_filter_contains_rev(p, id);
}

/// A song that is already running is not started a second time.
pub proof fn law_no_double_start(m: DownloadModel, song: Song, on_disk: bool, max: usize)
    requires
        is_active(m, song.yt_id@),
    ensures
        request_spec(m, song, on_disk, max) == (m, DownloadStep::Ignore),
{
}

/// When a download ends its video id no longer counts as running, and the
/// first waiting song comes out of the queue.
pub proof fn law_finish_releases(m: DownloadModel, song: Song)
    ensures
        !is_active(finish_spec(m, song).0, song.yt_id@),
        m.queued.len() > 0 ==> finish_spec(m, song).1 == Some(m.queued[0])
            && finish_spec(m, song).0.queued == m.queued.drop_first(),
        m.queued.len() == 0 ==> finish_spec(m, song).1 is None,
{
    let p = |x: Seq<char>| x != song.yt_id@;
    let f = m.active.filter(p);
    if f.contains(song.yt_id@) {
        let k = choose|k: int| 0 <= k < f.len() && f[k] == song.yt_id@;
        m.active.lemma_filter_pred(p, k);
    }
}

} // verus!
