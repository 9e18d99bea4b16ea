use resonate::actions::{add_song_to_playlist, queue_order, ThumbnailRequests};
use resonate::database::{DatabaseParam, INSERT_ENTRY};
use resonate::music::{Song, Length};

fn song(id: usize, album: Option<&str>) -> Song {
    Song::new(id, format!("yt{id}"), format!("T{id}"), String::from("A"), album.map(|a| a.to_string()), Length::from_secs(60))
}

fn order(songs: &[Song]) -> Vec<usize> {
    songs.iter().map(|s| s.id).collect()
}

#[test]
fn adding_a_song_stores_the_entry_and_downloads_it() {
    let r = add_song_to_playlist(song(9, None), 4);
    assert_eq!(r.entry.query, INSERT_ENTRY);
    let params: Vec<usize> = r
        .entry
        .params
        .params()
        .iter()
        .map(|p| match p {
            DatabaseParam::Usize(v) => *v,
            _ => panic!("expected a number"),
        })
        .collect();
    assert_eq!(params, vec![4, 9]);
    assert_eq!(r.added, 9);
    assert_eq!(r.download.id, 9);
    assert_eq!(r.download.yt_id, "yt9");
}

#[test]
fn without_shuffle_the_playlist_keeps_its_order() {
    let songs = vec![song(1, None), song(2, None), song(3, None)];
    let r = queue_order(songs, false, &vec![2, 1, 0]);
    assert_eq!(order(&r), vec![1, 2, 3]);
}

#[test]
fn shuffling_takes_the_songs_in_the_order_drawn() {
    let songs = vec![song(1, None), song(2, None), song(3, None)];
    let r = queue_order(songs, true, &vec![1, 0, 0]);
    assert_eq!(order(&r), vec![2, 1, 3]);
    let songs = vec![song(1, None), song(2, None), song(3, None)];
    let r = queue_order(songs, true, &vec![5, 4]);
    assert_eq!(order(&r), vec![3, 1, 2]);
}

#[test]
fn shuffling_keeps_every_song_once() {
    let songs: Vec<Song> = (1..=6).map(|i| song(i, None)).collect();
    let mut r = order(&queue_order(songs, true, &vec![7, 3, 11, 2, 9, 1]));
    r.sort();
    assert_eq!(r, vec![1, 2, 3, 4, 5, 6]);
    assert!(queue_order(Vec::new(), true, &vec![3]).is_empty());
}

#[test]
fn a_thumbnail_is_asked_for_once_per_album_or_video() {
    let mut asked = ThumbnailRequests::new();
    assert!(asked.asked.is_empty());
    assert!(asked.request(&song(1, Some("Best Of")), false));
    assert!(!asked.request(&song(2, Some("Best Of")), false));
    assert!(!asked.request(&song(3, None), true));
    assert!(asked.request(&song(3, None), false));
    assert!(!asked.request(&song(3, None), false));
    assert_eq!(asked.asked, vec![String::from("Best Of"), String::from("yt3")]);
}
