use resonate::music::{Song, Length};
use resonate::worker_pool::{PoolAnswer, WorkerPool, WorkerReport, WORKERS};

fn song(id: usize) -> Song {
    Song::new(id, format!("yt{id}"), format!("T{id}"), String::from("A"), None, Length::from_secs(60))
}

fn ids(v: &[&str]) -> Vec<String> {
    v.iter().map(|s| s.to_string()).collect()
}

fn running(n: usize) -> Vec<WorkerReport> {
    (0..n).map(|_| WorkerReport::Running).collect()
}

#[test]
fn the_pool_grows_by_one_worker_per_poll_up_to_four() {
    let mut pool = WorkerPool::new(ids(&["a", "b", "c", "d", "e", "f"]));
    assert_eq!(pool.running(), 0);
    let expected = ["f", "e", "d", "c"];
    for (n, id) in expected.iter().enumerate() {
        let p = pool.poll(running(n));
        assert_eq!(p.spawn, ids(&[id]));
        assert!(matches!(p.answer, PoolAnswer::Pending));
        assert_eq!(pool.running(), n + 1);
    }
    let p = pool.poll(running(WORKERS));
    assert!(p.spawn.is_empty());
    assert!(matches!(p.answer, PoolAnswer::Pending));
    assert_eq!(pool.running(), WORKERS);
}

#[test]
fn finished_workers_are_replaced_and_their_songs_handed_on() {
    let mut pool = WorkerPool::new(ids(&["a", "b", "c", "d", "e", "f"]));
    for n in 0..WORKERS {
        pool.poll(running(n));
    }
    let p = pool.poll(vec![WorkerReport::Found(song(1)), WorkerReport::Running, WorkerReport::Empty, WorkerReport::Failed]);
    assert_eq!(p.spawn, ids(&["b", "a"]));
    match p.answer {
        PoolAnswer::Batch(songs) => assert_eq!(songs.iter().map(|s| s.id).collect::<Vec<_>>(), vec![1]),
        _ => panic!("expected a batch"),
    }
    assert_eq!(pool.running(), 3);
    let p = pool.poll(vec![WorkerReport::Failed, WorkerReport::Running, WorkerReport::Running]);
    assert!(p.spawn.is_empty());
    assert!(matches!(p.answer, PoolAnswer::Pending));
    assert_eq!(pool.running(), 2);
    let p = pool.poll(vec![WorkerReport::Empty, WorkerReport::Empty]);
    match p.answer {
        PoolAnswer::Batch(songs) => assert!(songs.is_empty()),
        _ => panic!("expected an empty batch"),
    }
    assert_eq!(pool.running(), 0);
    assert!(matches!(pool.poll(Vec::new()).answer, PoolAnswer::End));
}

#[test]
fn an_empty_pool_ends_at_once() {
    let mut pool = WorkerPool::new(Vec::new());
    let p = pool.poll(Vec::new());
    assert!(p.spawn.is_empty());
    assert!(matches!(p.answer, PoolAnswer::End));
}
