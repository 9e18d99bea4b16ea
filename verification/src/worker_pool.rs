//! The metadata pool that collects search results with up to four workers
//! at once. Each poll takes what the workers reported, hands the ids still
//! queued to new workers, and answers the stream: the end, nothing yet, or
//! the songs of the workers that finished.
use vstd::prelude::*;
use crate::music::Song;

verus! {

/// The number of workers that may run at once.
pub const WORKERS: usize = 4;

/// What a worker reported at a poll.
pub enum WorkerReport {
    /// It is still running.
    Running,
    /// It ended without returning (its thread panicked).
    Failed,
    /// It returned the song it found.
    Found(Song),
    /// It returned without a song.
    Empty,
}

/// The answer of a poll, as plain values.
pub enum PollView {
    End,
    Pending,
    Batch(Seq<Song>),
}

/// The answer of a poll.
pub enum PoolAnswer {
    /// The queue and the workers are empty: the stream ends.
    End,
    /// No worker returned since the last poll.
    Pending,
    /// The songs found by the workers that returned (possibly none).
    Batch(Vec<Song>),
}

/// The view of an answer.
pub open spec fn answer_view(a: PoolAnswer) -> PollView {
    match a {
        PoolAnswer::End => PollView::End,
        PoolAnswer::Pending => PollView::Pending,
        PoolAnswer::Batch(v) => PollView::Batch(v@),
    }
}

/// The report of the `i`-th worker; a worker without a report still runs.
pub open spec fn report_at(reports: Seq<WorkerReport>, i: int) -> WorkerReport {
    if 0 <= i < reports.len() {
        reports[i]
    } else {
        WorkerReport::Running
    }
}

/// The first `n` workers that still run, in order.
pub open spec fn still_running(workers: Seq<String>, reports: Seq<WorkerReport>, n: nat) -> Seq<String>
    decreases n,
{
    if n == 0 {
        Seq::empty()
    } else {
        let prev = still_running(workers, reports, (n - 1) as nat);
        if report_at(reports, n - 1) is Running {
            prev.push(workers[n - 1])
        } else {
            prev
        }
    }
}

/// How many of the first `n` workers finished.
pub open spec fn finished_count(reports: Seq<WorkerReport>, n: nat) -> nat
    decreases n,
{
    if n == 0 {
        0
    } else {
        finished_count(reports, (n - 1) as nat) + if report_at(reports, n - 1) is Running {
            0nat
        } else {
            1nat
        }
    }
}

/// The songs found by the first `n` workers, in order.
pub open spec fn found_songs(reports: Seq<WorkerReport>, n: nat) -> Seq<Song>
    decreases n,
{
    if n == 0 {
        Seq::empty()
    } else {
        let prev = found_songs(reports, (n - 1) as nat);
        match report_at(reports, n - 1) {
            WorkerReport::Found(s) => prev.push(s),
            _ => prev,
        }
    }
}

/// Whether one of the first `n` workers returned, with or without a song.
pub open spec fn any_returned(reports: Seq<WorkerReport>, n: nat) -> bool
    decreases n,
{
    if n == 0 {
        false
    } else {
        any_returned(reports, (n - 1) as nat) || report_at(reports, n - 1) is Found || report_at(
            reports,
            n - 1,
        ) is Empty
    }
}

/// A poll of the pool with `queue` still to hand out (the last id first) and
/// `workers` running: the queue and the workers afterwards, the ids handed
/// to new workers in the order they start, and the answer. Each finished
/// worker is replaced while ids are left; then one more worker starts when
/// ids are left and fewer than `WORKERS` run.
pub open spec fn poll_spec(queue: Seq<String>, workers: Seq<String>, reports: Seq<WorkerReport>) -> (
    Seq<String>,
    Seq<String>,
    Seq<String>,
    PollView,
) {
    if queue.len() == 0 && workers.len() == 0 {
        (queue, workers, Seq::empty(), PollView::End)
    } else {
        let n = workers.len();
        let f = finished_count(reports, n);
        let k = if f <= queue.len() {
            f
        } else {
            queue.len()
        };
        let q1 = queue.take(queue.len() - k);
        let s1 = queue.skip(queue.len() - k).reverse();
        let w1 = still_running(workers, reports, n) + s1;
        let extra = q1.len() > 0 && w1.len() < WORKERS;
        let answer = if any_returned(reports, n) {
            PollView::Batch(found_songs(reports, n))
        } else {
            PollView::Pending
        };
        if extra {
            (q1.drop_last(), w1.push(q1.last()), s1.push(q1.last()), answer)
        } else {
            (q1, w1, s1, answer)
        }
    }
}

/// Each worker either still runs or finished.
pub proof fn lemma_running_and_finished(workers: Seq<String>, reports: Seq<WorkerReport>, n: nat)
    ensures
        still_running(workers, reports, n).len() + finished_count(reports, n) == n,
    decreases n,
{
    if n > 0 {
        lemma_running_and_finished(workers, reports, (n - 1) as nat);
    }
}

/// A poll keeps every id: what stays queued, followed by what was handed
/// out in the reverse order, is the queue before; and no more than
/// `WORKERS` run afterwards when no more ran before.
pub proof fn law_poll_keeps_ids(queue: Seq<String>, workers: Seq<String>, reports: Seq<WorkerReport>)
    requires
        workers.len() <= WORKERS,
    ensures
        ({
            let (q, w, s, _) = poll_spec(queue, workers, reports);
            &&& q + s.reverse() == queue
            &&& w.len() <= WORKERS
        }),
{
    lemma_running_and_finished(workers, reports, workers.len());
    let (q, w, s, _) = poll_spec(queue, workers, reports);
    if !(queue.len() == 0 && workers.len() == 0) {
        let n = workers.len();
        let f = finished_count(reports, n);
        let k = if f <= queue.len() {
            f
        } else {
            queue.len()
        };
        let q1 = queue.take(queue.len() - k);
        let s1 = queue.skip(queue.len() - k).reverse();
        assert(q1 + s1.reverse() =~= queue);
        if q1.len() > 0 && still_running(workers, reports, n).len() + s1.len() < WORKERS {
            assert(s1.push(q1.last()).reverse() =~= seq![q1.last()] + s1.reverse());
            assert(q1.drop_last() + (seq![q1.last()] + s1.reverse()) =~= queue);
        }
    } else {
        assert(q + s.reverse() =~= queue);
    }
}

/// A song found by one of the first `n` workers is among the found songs,
/// and that worker counts as returned.
proof fn lemma_found_song_kept(reports: Seq<WorkerReport>, n: nat, i: int, s: Song)
    requires
        0 <= i < n,
        report_at(reports, i) == WorkerReport::Found(s),
    ensures
        found_songs(reports, n).contains(s),
        any_returned(reports, n),
    decreases n,
{
    if i < n - 1 {
        lemma_found_song_kept(reports, (n - 1) as nat, i, s);
        let prev = found_songs(reports, (n - 1) as nat);
        let k = choose|k: int| 0 <= k < prev.len() && prev[k] == s;
        match report_at(reports, n - 1) {
            WorkerReport::Found(t) => {
                assert(found_songs(reports, n) == prev.push(t));
                assert(found_songs(reports, n)[k] == s);
            },
            _ => {},
        }
    } else {
        let prev = found_songs(reports, (n - 1) as nat);
        assert(found_songs(reports, n) == prev.push(s));
        assert(found_songs(reports, n)[prev.len() as int] == s);
    }
}

/// While every one of the first `n` workers still runs, none returned.
proof fn lemma_none_returned(reports: Seq<WorkerReport>, n: nat)
    requires
        forall|j: int| 0 <= j < n ==> #[trigger] report_at(reports, j) is Running,
    ensures
        !any_returned(reports, n),
    decreases n,
{
    if n > 0 {
        lemma_none_returned(reports, (n - 1) as nat);
        assert(report_at(reports, n - 1) is Running);
    }
}

/// A poll hands on what the workers found: when a running worker returned a
/// song, the answer is a batch that holds it; while every worker still runs,
/// the answer is that nothing came yet; with nothing queued and no worker,
/// the stream ends.
pub proof fn law_poll_hands_on_found_songs(
    queue: Seq<String>,
    workers: Seq<String>,
    reports: Seq<WorkerReport>,
    i: int,
    s: Song,
)
    ensures
        queue.len() == 0 && workers.len() == 0 ==> poll_spec(queue, workers, reports).3 is End,
        0 <= i < workers.len() && report_at(reports, i) == WorkerReport::Found(s) ==> (poll_spec(
            queue,
            workers,
            reports,
        ).3 matches PollView::Batch(v) && v.contains(s)),
        workers.len() > 0 && (forall|j: int| 0 <= j < workers.len() ==> #[trigger] report_at(reports, j) is Running)
            ==> poll_spec(queue, workers, reports).3 is Pending,
        queue.len() > 0 && workers.len() == 0 ==> poll_spec(queue, workers, reports).3 is Pending,
{
    if 0 <= i < workers.len() && report_at(reports, i) == WorkerReport::Found(s) {
        lemma_found_song_kept(reports, workers.len(), i, s);
    }
    if workers.len() > 0 && (forall|j: int| 0 <= j < workers.len() ==> #[trigger] report_at(reports, j) is Running) {
        lemma_none_returned(reports, workers.len());
    }
}

/// A run of polls, one list of reports per poll: the queue, the workers and
/// every id handed out, in order.
pub open spec fn pool_run(queue: Seq<String>, workers: Seq<String>, polls: Seq<Seq<WorkerReport>>) -> (
    Seq<String>,
    Seq<String>,
    Seq<String>,
)
    decreases polls.len(),
{
    if polls.len() == 0 {
        (queue, workers, Seq::empty())
    } else {
        let (q, w, s) = pool_run(queue, workers, polls.drop_last());
        let (q2, w2, s2, _) = poll_spec(q, w, polls.last());
        (q2, w2, s + s2)
    }
}

/// Over any run of polls on a new pool, at most `WORKERS` run at a time and
/// each id is handed to exactly one worker: the ids handed out, followed by
/// the queue left in reverse, are the ids in reverse.
pub proof fn law_pool_run(ids: Seq<String>, polls: Seq<Seq<WorkerReport>>)
    ensures
        ({
            let (q, w, s) = pool_run(ids, Seq::empty(), polls);
            &&& w.len() <= WORKERS
            &&& q + s.reverse() == ids
        }),
    decreases polls.len(),
{
    if polls.len() > 0 {
        law_pool_run(ids, polls.drop_last());
        let (q, w, s) = pool_run(ids, Seq::empty(), polls.drop_last());
        law_poll_keeps_ids(q, w, polls.last());
        let (q2, w2, s2, _) = poll_spec(q, w, polls.last());
        assert((s + s2).reverse() =~= s2.reverse() + s.reverse());
        assert(q2 + (s + s2).reverse() =~= (q2 + s2.reverse()) + s.reverse());
    } else {
        assert(ids + Seq::<String>::empty().reverse() =~= ids);
    }
}

/// What a poll does: the ids to hand to new workers, in order, and the
/// answer to the stream.
pub struct PoolPoll {
    pub spawn: Vec<String>,
    pub answer: PoolAnswer,
}

/// The ids still to hand out and the ids the running workers work on.
pub struct WorkerPool {
    queue: Vec<String>,
    workers: Vec<String>,
}

/// The queue and the workers of a pool.
pub struct WorkerPoolView {
    pub queue: Seq<String>,
    pub workers: Seq<String>,
}

impl View for WorkerPool {
    type V = WorkerPoolView;

    closed spec fn view(&self) -> WorkerPoolView {
        WorkerPoolView { queue: self.queue@, workers: self.workers@ }
    }
}

impl WorkerPool {
    #[verifier::type_invariant]
    closed spec fn inv(self) -> bool {
        self.workers@.len() <= WORKERS
    }

    /// A pool for `ids`, with no worker running.
    pub fn new(ids: Vec<String>) -> (r: WorkerPool)
        ensures
            r@.queue == ids@,
            r@.workers == Seq::<String>::empty(),
    {
        WorkerPool { queue: ids, workers: Vec::new() }
    }

    /// How many workers run.
    pub fn running(&self) -> (r: usize)
        ensures
            r == self@.workers.len(),
            r <= WORKERS,
    {
        proof { use_type_invariant(self); }
        self.workers.len()
    }

    /// A poll: `reports` tells, worker by worker in the order they started,
    /// what each did since the last poll. The running workers keep their
    /// order and the new ones follow them.
    pub fn poll(&mut self, reports: Vec<WorkerReport>) -> (r: PoolPoll)
        ensures
            (final(self)@.queue, final(self)@.workers, r.spawn@, answer_view(r.answer)) == poll_spec(
                old(self)@.queue,
                old(self)@.workers,
                reports@,
            ),
            final(self)@.workers.len() <= WORKERS,
    {
        proof { use_type_invariant(&*self); }
        let ghost q0 = self.queue@;
        let ghost w0 = self.workers@;
        if self.queue.len() == 0 && self.workers.len() == 0 {
            return PoolPoll { spawn: Vec::new(), answer: PoolAnswer::End };
        }
        let n = self.workers.len();
        let mut kept: Vec<String> = Vec::new();
        let mut found: Vec<Song> = Vec::new();
        let mut returned = false;
        let mut finished: usize = 0;
        let mut i: usize = 0;
        while i < n
            invariant
                n == w0.len(),
                self.workers@ == w0,
                self.queue@ == q0,
                i <= n,
                kept@ == still_running(w0, reports@, i as nat),
                finished == finished_count(reports@, i as nat),
                found@ == found_songs(reports@, i as nat),
                returned == any_returned(reports@, i as nat),
            decreases n - i,
        {
            proof { lemma_running_and_finished(w0, reports@, i as nat); }
            if i < reports.len() {
                match &reports[i] {
                    WorkerReport::Running => {
                        kept.push(self.workers[i].clone());
                    },
                    WorkerReport::Failed => {
                        finished = finished + 1;
                    },
                    WorkerReport::Found(s) => {
                        finished = finished + 1;
                        returned = true;
                        found.push(s.clone());
                    },
                    WorkerReport::Empty => {
                        finished = finished + 1;
                        returned = true;
                    },
                }
            } else {
                kept.push(self.workers[i].clone());
            }
            i = i + 1;
        }
        proof { lemma_running_and_finished(w0, reports@, n as nat); }
        let mut spawn: Vec<String> = Vec::new();
        let mut queue: Vec<String> = Vec::new();
        std::mem::swap(&mut queue, &mut self.queue);
        let mut j: usize = 0;
        while j < finished && queue.len() > 0
            invariant
                j <= finished,
                j <= q0.len(),
                queue@ == q0.take(q0.len() - j),
                spawn@ == q0.skip(q0.len() - j).reverse(),
            decreases finished - j,
        {
            let id = queue.pop().unwrap();
            assert(queue@ =~= q0.take(q0.len() - (j + 1)));
            spawn.push(id);
            assert(spawn@ =~= q0.skip(q0.len() - (j + 1)).reverse());
            j = j + 1;
        }
        assert(j == (if finished <= q0.len() { finished as nat } else { q0.len() }));
        let mut workers = kept;
        let mut s: usize = 0;
        while s < spawn.len()
            invariant
                s <= spawn.len(),
                workers@ == still_running(w0, reports@, n as nat) + spawn@.take(s as int),
            decreases spawn.len() - s,
        {
            workers.push(spawn[s].clone());
            assert(spawn@.take(s + 1) =~= spawn@.take(s as int).push(spawn@[s as int]));
            s = s + 1;
        }
        assert(spawn@.take(spawn.len() as int) =~= spawn@);
        assert(workers.len() <= WORKERS);
        if queue.len() > 0 && workers.len() < WORKERS {
            let id = queue.pop().unwrap();
            workers.push(id.clone());
            spawn.push(id);
        }
        self.queue = queue;
        self.workers = workers;
        let answer = if returned {
            PoolAnswer::Batch(found)
        } else {
            PoolAnswer::Pending
        };
        PoolPoll { spawn, answer }
    }
}

} // verus!
