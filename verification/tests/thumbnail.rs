use resonate::music::{Song, Length};
use resonate::thumbnail::{centre_square, Thumbnail, ThumbnailError, ThumbnailRegistry};

fn song(album: Option<&str>, yt: &str) -> Song {
    Song::new(1, yt.to_string(), "T".to_string(), "A".to_string(), album.map(|a| a.to_string()), Length::from_secs(10))
}

fn thumb(name: &str) -> Thumbnail {
    Thumbnail {
        thumbnail: format!("{name}/thumbnail.png"),
        fullsize: format!("{name}/fullsize.png"),
        blurred: format!("{name}/blurred.png"),
    }
}

#[test]
fn small_gives_the_small_rendering() {
    let t = thumb("x");
    assert_eq!(t.small(), "x/thumbnail.png");
    let u = Thumbnail::uniform(&String::from("/d.png"));
    assert_eq!(u.thumbnail, "/d.png");
    assert_eq!(u.fullsize, "/d.png");
    assert_eq!(u.blurred, "/d.png");
}

#[test]
fn a_thumbnail_is_downloaded_once() {
    let mut r = ThumbnailRegistry::new();
    let s = song(Some("Best Of"), "abc");
    assert!(r.lookup(&s).is_none());
    assert!(r.begin_download(&s));
    assert!(!r.begin_download(&s));
    assert!(r.end_download(&s, &Ok(thumb("Best_Of"))));
    assert_eq!(r.lookup(&s).unwrap().thumbnail, "Best_Of/thumbnail.png");
    assert!(!r.begin_download(&s));
    assert_eq!(r.get(&String::from("Best_Of")).unwrap().blurred, "Best_Of/blurred.png");
}

#[test]
fn songs_of_one_album_share_a_thumbnail() {
    let mut r = ThumbnailRegistry::new();
    let a = song(Some("Same Album"), "one");
    let b = song(Some("Same Album"), "two");
    assert!(r.begin_download(&a));
    assert!(!r.begin_download(&b));
    r.end_download(&a, &Ok(thumb("Same_Album")));
    assert_eq!(r.lookup(&b).unwrap().fullsize, "Same_Album/fullsize.png");
}

#[test]
fn a_failed_download_can_be_retried() {
    let mut r = ThumbnailRegistry::new();
    let s = song(None, "vid");
    assert!(r.begin_download(&s));
    assert!(r.end_download(&s, &Err(ThumbnailError::FailedToSave)));
    assert!(r.lookup(&s).is_none());
    assert!(r.begin_download(&s));
}

#[test]
fn an_untracked_end_is_reported() {
    let mut r = ThumbnailRegistry::new();
    let s = song(None, "vid");
    assert!(!r.end_download(&s, &Err(ThumbnailError::FailedToDownload)));
    assert!(!r.end_download(&s, &Err(ThumbnailError::FailedToSpawnDLP)));
    assert!(!r.end_download(&s, &Err(ThumbnailError::FailedToRecv)));
    assert!(r.lookup(&s).is_none());
}

#[test]
fn insert_registers_a_stored_thumbnail() {
    let mut r = ThumbnailRegistry::new();
    r.insert(String::from("k"), thumb("k"));
    r.insert(String::from("k"), thumb("k2"));
    assert_eq!(r.get(&String::from("k")).unwrap().thumbnail, "k2/thumbnail.png");
    assert!(r.get(&String::from("other")).is_none());
}

#[test]
fn centre_square_crops_the_middle() {
    assert_eq!(centre_square(640, 480), (80, 0, 480));
    assert_eq!(centre_square(480, 640), (0, 80, 480));
    assert_eq!(centre_square(100, 100), (0, 0, 100));
    assert_eq!(centre_square(5, 2), (1, 0, 2));
}

#[test]
fn saved_thumbnails_are_known_from_the_start() {
    let r = ThumbnailRegistry::from_saved(vec![
        (String::from("Best_Of"), thumb("a")),
        (String::from("xyz"), thumb("b")),
        (String::from("Best_Of"), thumb("c")),
    ]);
    let found = r.lookup(&song(Some("Best Of"), "abc")).unwrap();
    assert_eq!(found.thumbnail, "c/thumbnail.png");
    let found = r.lookup(&song(None, "xyz")).unwrap();
    assert_eq!(found.fullsize, "b/fullsize.png");
    assert!(r.lookup(&song(None, "other")).is_none());
    assert!(ThumbnailRegistry::from_saved(Vec::new()).lookup(&song(None, "xyz")).is_none());
}
