use resonate::music::{clone_opt_string, clone_songs, opt_string_eq, Playlist, Song, Length};

fn song() -> Song {
    Song::new(
        12,
        String::from("dQw4w9WgXcQ"),
        String::from("Never Gonna"),
        String::from("Rick"),
        Some(String::from("Whenever You Need Somebody")),
        Length::from_secs(213),
    )
}

#[test]
fn new_songs_are_not_downloaded() {
    let s = song();
    assert_eq!(s.id, 12);
    assert_eq!(s.duration, Length::from_secs(213));
    assert!(s.music_path.is_none());
}

#[test]
fn durations_show_minutes_and_seconds() {
    assert_eq!(song().display_duration(), "03:33");
    let mut s = song();
    s.duration = Length::from_secs(0);
    assert_eq!(s.display_duration(), "00:00");
    s.duration = Length::from_secs(59);
    assert_eq!(s.display_duration(), "00:59");
    s.duration = Length::from_secs(6000);
    assert_eq!(s.display_duration(), "100:00");
}

#[test]
fn identifiers() {
    let s = song();
    assert_eq!(s.get_music_identifier(), "dQw4w9WgXcQ");
    assert_eq!(s.get_thumbnail_identifier(), "Whenever_You_Need_Somebody");
    let mut t = song();
    t.album = None;
    t.yt_id = String::from("a b");
    assert_eq!(t.get_thumbnail_identifier(), "a_b");
}

#[test]
fn display_string() {
    assert_eq!(
        song().to_display_string(),
        "Never Gonna by Rick in Whenever You Need Somebody. 0333. SQL: 12. YT: dQw4w9WgXcQ."
    );
    let mut s = song();
    s.album = None;
    assert_eq!(s.to_display_string(), "Never Gonna by Rick. 0333. SQL: 12. YT: dQw4w9WgXcQ.");
}

#[test]
fn equality_and_copies() {
    let a = song();
    let b = a.clone();
    assert!(a.same_as(&b));
    assert_eq!(a, b);
    let mut c = song();
    c.music_path = Some(String::from("/x.mp3"));
    assert!(!a.same_as(&c));
    assert!(opt_string_eq(&None, &None));
    assert!(!opt_string_eq(&Some(String::from("a")), &None));
    assert_eq!(clone_opt_string(&Some(String::from("a"))), Some(String::from("a")));
    let list = clone_songs(&vec![song(), c.clone()]);
    assert_eq!(list, vec![song(), c]);
    let p = Playlist { id: 3, name: String::from("Mix") };
    let q = p.clone();
    assert_eq!(q.id, 3);
    assert_eq!(q.name, "Mix");
}

#[test]
fn a_fraction_of_a_second_is_kept_but_not_shown() {
    let mut s = song();
    s.duration = Length { secs: 61, nanos: 999_999_999 };
    assert_eq!(s.display_duration(), "01:01");
    assert_eq!(s.duration.nanos, 999_999_999);
    assert_eq!(s.duration.total_nanos(), 61_999_999_999);
}
