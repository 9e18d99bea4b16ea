use resonate::error::ResonateError;
use resonate::filemanager::{contains_chars, find_downloader, is_downloader, DataDir};
use resonate::media::{FMAuth, FMMessage, LyricMsg, MediaPacket, RPCError, RPCMessage, TrayMessage};
use resonate::music::{Song, Length};
use resonate::player::AudioTask;
use resonate::text::chars_of;

#[test]
fn media_keys_map_to_audio_tasks() {
    assert!(matches!(MediaPacket::from_line(Some(String::from("0"))), MediaPacket::TogglePlayback));
    assert!(matches!(MediaPacket::from_line(Some(String::from("1"))), MediaPacket::SkipForward));
    assert!(matches!(MediaPacket::from_line(Some(String::from("2"))), MediaPacket::SkipBackward));
    match MediaPacket::from_line(Some(String::from("3"))) {
        MediaPacket::CouldNotParse(s) => assert_eq!(s, "3"),
        _ => panic!("expected an unparsed line"),
    }
    assert!(matches!(MediaPacket::from_line(None), MediaPacket::Failure));
    assert!(matches!(MediaPacket::TogglePlayback.audio_task(), Some(AudioTask::TogglePlayback)));
    assert!(matches!(MediaPacket::SkipForward.audio_task(), Some(AudioTask::SkipForward)));
    assert!(matches!(MediaPacket::SkipBackward.audio_task(), Some(AudioTask::SkipBackward)));
    assert!(MediaPacket::Failure.audio_task().is_none());
    assert!(MediaPacket::CouldNotParse(String::from("x")).audio_task().is_none());
}

#[test]
fn presence_shows_the_song() {
    let s = Song::new(1, String::from("v"), String::from("Song"), String::from("Band"), None, Length::from_secs(1));
    assert_eq!(RPCMessage::SetStatus(s).status_text(), "Listening to Song by Band");
    assert_ne!(RPCError::ChannelDied, RPCError::Failed);
    assert_ne!(TrayMessage::OpenMain, TrayMessage::Quit);
    let _ = LyricMsg::SpawnCollector;
    let _ = FMMessage::SetNowPlaying(Song::new(2, String::new(), String::new(), String::new(), None, Length::from_secs(0)));
    let auth = FMAuth::new(Some(String::from("k")), None, Some(String::from("u")), None);
    assert_eq!(auth.key.as_deref(), Some("k"));
    assert!(auth.secret.is_none());
    assert_eq!(auth.username.as_deref(), Some("u"));
}

#[test]
fn the_downloader_is_found_by_name() {
    assert!(contains_chars(&chars_of("abcdef"), &chars_of("cde")));
    assert!(contains_chars(&chars_of("abc"), &chars_of("")));
    assert!(!contains_chars(&chars_of("ab"), &chars_of("abc")));
    assert!(!contains_chars(&chars_of("aab"), &chars_of("abb")));
    assert!(is_downloader(&String::from("/deps/yt-dlp_linux")));
    assert!(!is_downloader(&String::from("/deps/ffmpeg")));
    let paths = vec![String::from("/d/ffmpeg"), String::from("/d/yt-dlp"), String::from("/d/yt-dlp.exe")];
    assert_eq!(find_downloader(&paths), Some(String::from("/d/yt-dlp")));
    assert_eq!(find_downloader(&vec![String::from("/d/other")]), None);
}

#[test]
fn data_directories_hold_their_paths() {
    let mut d = DataDir::new(
        String::from("/r"),
        String::from("/r/music"),
        String::from("/r/dependencies"),
        String::from("/r/thumbnails"),
        String::from("/r/thumbnails/default_thumbnail.png"),
        None,
    );
    assert_eq!(d.get_root_ref(), "/r");
    assert_eq!(d.get_music_ref(), "/r/music");
    assert_eq!(d.get_dependencies_ref(), "/r/dependencies");
    assert_eq!(d.get_thumbnails_ref(), "/r/thumbnails");
    assert_eq!(d.get_default_thumbnail(), "/r/thumbnails/default_thumbnail.png");
    assert!(d.get_dlp_ref().is_none());
    d.take_dlp_path(String::from("/r/dependencies/yt-dlp"));
    assert_eq!(d.get_dlp_ref().map(|s| s.as_str()), Some("/r/dependencies/yt-dlp"));
    let c = d.clone();
    assert_eq!(c.get_music_ref(), "/r/music");
}

#[test]
fn errors_are_distinct() {
    let all = [
        ResonateError::GenericError,
        ResonateError::NetworkError,
        ResonateError::ExecNotFound,
        ResonateError::DirectoryNotFound,
        ResonateError::UnrecognisedHomeDir,
        ResonateError::SQLError,
        ResonateError::AudioStreamError,
        ResonateError::AlreadyExists,
        ResonateError::STDOUTError,
    ];
    for (i, a) in all.iter().enumerate() {
        for (j, b) in all.iter().enumerate() {
            assert_eq!(i == j, a == b);
        }
    }
}
