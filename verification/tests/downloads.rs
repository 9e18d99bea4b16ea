use resonate::downloads::{DownloadScheduler, DownloadStep};
use resonate::music::{Song, Length};

fn song(id: usize) -> Song {
    Song::new(id, format!("yt{id}"), format!("T{id}"), String::from("A"), None, Length::from_secs(60))
}

fn started(step: &DownloadStep, id: usize) -> bool {
    match step {
        DownloadStep::Start(s) => s.id == id,
        _ => false,
    }
}

#[test]
fn downloads_start_until_the_limit_is_passed() {
    let mut d = DownloadScheduler::new();
    assert_eq!(d.active_count(), 0);
    assert!(started(&d.request(song(1), false, 2), 1));
    assert!(started(&d.request(song(2), false, 2), 2));
    assert_eq!(d.active_count(), 2);
    assert!(matches!(d.request(song(3), false, 2), DownloadStep::Queued));
    assert!(d.is_waiting(&song(3)));
    assert!(matches!(d.request(song(3), false, 2), DownloadStep::Queued));
    assert_eq!(d.active_count(), 2);
}

#[test]
fn a_song_on_disk_or_running_is_ignored() {
    let mut d = DownloadScheduler::new();
    assert!(matches!(d.request(song(1), true, 4), DownloadStep::Ignore));
    assert_eq!(d.active_count(), 0);
    assert!(started(&d.request(song(1), false, 4), 1));
    assert!(d.is_downloading(&String::from("yt1")));
    assert!(matches!(d.request(song(1), false, 4), DownloadStep::Ignore));
    assert_eq!(d.active_count(), 1);
}

#[test]
fn finishing_hands_out_the_first_waiting_song() {
    let mut d = DownloadScheduler::new();
    d.request(song(1), false, 2);
    d.request(song(2), false, 2);
    d.request(song(3), false, 2);
    d.request(song(4), false, 2);
    assert_eq!(d.active_count(), 2);
    let next = d.finish(&song(1)).unwrap();
    assert_eq!(next.id, 3);
    assert!(!d.is_downloading(&String::from("yt1")));
    assert!(!d.is_waiting(&song(3)));
    assert!(started(&d.request(next, false, 2), 3));
    let next = d.finish(&song(2)).unwrap();
    assert_eq!(next.id, 4);
    assert!(d.finish(&song(3)).is_none());
    assert_eq!(d.active_count(), 0);
}

#[test]
fn a_waiting_song_is_ignored_below_the_limit() {
    let mut d = DownloadScheduler::new();
    d.request(song(1), false, 2);
    d.request(song(2), false, 2);
    d.request(song(3), false, 2);
    d.request(song(4), false, 2);
    assert_eq!(d.finish(&song(1)).unwrap().id, 3);
    assert_eq!(d.active_count(), 1);
    assert!(matches!(d.request(song(4), false, 2), DownloadStep::Ignore));
    assert!(d.is_waiting(&song(4)));
    assert_eq!(d.active_count(), 1);
}

#[test]
fn the_limit_is_the_number_that_may_run() {
    let mut d = DownloadScheduler::new();
    assert!(started(&d.request(song(1), false, 1), 1));
    assert!(matches!(d.request(song(2), false, 1), DownloadStep::Queued));
    assert_eq!(d.active_count(), 1);
    let mut none = DownloadScheduler::new();
    assert!(matches!(none.request(song(1), false, 0), DownloadStep::Queued));
    assert_eq!(none.active_count(), 0);
}

#[test]
fn requesting_every_song_answers_each_in_turn() {
    let mut d = DownloadScheduler::new();
    let steps = d.request_all(vec![(song(1), false), (song(2), true), (song(3), false), (song(1), false)], 1);
    assert_eq!(steps.len(), 4);
    assert!(started(&steps[0], 1));
    assert!(matches!(steps[1], DownloadStep::Ignore));
    assert!(matches!(steps[2], DownloadStep::Queued));
    assert!(matches!(steps[3], DownloadStep::Ignore));
    assert_eq!(d.active_count(), 1);
    assert!(d.is_waiting(&song(3)));
    assert!(d.request_all(Vec::new(), 1).is_empty());
}
