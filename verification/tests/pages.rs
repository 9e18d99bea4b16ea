use resonate::database::INSERT_ENTRY;
use resonate::error::ResonateError;
use resonate::filemanager::DataDir;
use resonate::import_page::{ImportPage, NoticeColour, SpotifyNotification};
use resonate::music::{Playlist, Song, Length};
use resonate::navigation::{page_back, Navigation, PageType};
use resonate::playlist_page::{downloaded_info, PlaylistPage, SongAction};
use resonate::playlists::{new_playlist_name, PlaylistsPage};
use resonate::search_page::{SearchPage, SearchState};

fn dirs(dlp: Option<&str>) -> DataDir {
    DataDir::new(
        String::from("/root"),
        String::from("/root/music"),
        String::from("/root/dependencies"),
        String::from("/root/thumbnails"),
        String::from("/root/thumbnails/default_thumbnail.png"),
        dlp.map(|d| d.to_string()),
    )
}

fn song(id: usize, downloaded: bool) -> Song {
    let mut s = Song::new(id, format!("yt{id}"), format!("T{id}"), String::from("A"), None, Length::from_secs(30));
    if downloaded {
        s.music_path = Some(format!("/music/yt{id}.mp3"));
    }
    s
}

fn playlist(id: usize, name: &str) -> Playlist {
    Playlist { id, name: name.to_string() }
}

#[test]
fn new_playlists_take_the_least_free_number() {
    assert_eq!(new_playlist_name(&vec![]), "My Playlist");
    assert_eq!(new_playlist_name(&vec![String::from("Mix")]), "My Playlist");
    assert_eq!(new_playlist_name(&vec![String::from("My Playlist"), String::from("My Playlist 3")]), "My Playlist 2");
    assert_eq!(new_playlist_name(&vec![String::from("My Playlist 2"), String::from("My Playlist")]), "My Playlist 3");
    assert_eq!(new_playlist_name(&vec![String::from("My Playlist 2")]), "My Playlist");
    let mut page = PlaylistsPage::new();
    let first = page.create_playlist();
    assert_eq!(first.id, 0);
    assert_eq!(first.name, "My Playlist");
    page.add_playlist(playlist(5, "My Playlist"));
    assert_eq!(page.create_playlist().name, "My Playlist 2");
}

#[test]
fn playlists_are_renamed_hovered_and_deleted() {
    let mut page = PlaylistsPage::new();
    page.add_playlist(playlist(1, "A"));
    page.add_playlist(playlist(2, "B"));
    page.text_input(String::from("ignored"));
    assert_eq!(page.playlists[0].0.name, "A");
    page.start_editing(1);
    page.text_input(String::from("Bee"));
    let renamed = page.stop_editing().unwrap();
    assert_eq!((renamed.id, renamed.name.as_str()), (2, "Bee"));
    assert!(page.editing.is_none());
    assert!(page.stop_editing().is_none());
    page.hover(0, true);
    assert!(page.playlists[0].1);
    page.hover(9, true);
    page.delete_playlist(1);
    assert_eq!(page.playlists.len(), 1);
    assert_eq!(page.playlists[0].0.id, 2);
    page.delete_playlist(42);
    assert_eq!(page.playlists.len(), 1);
}

#[test]
fn navigation_remembers_the_previous_page() {
    let mut nav = Navigation::new();
    assert_eq!(nav.current_page, (PageType::Playlists, None));
    nav.load_page(PageType::ViewPlaylist, Some(3));
    nav.load_page(PageType::SearchSongs, Some(3));
    assert_eq!(nav.last_page, (PageType::ViewPlaylist, Some(3)));
    assert_eq!(nav.back(PageType::SearchSongs), (PageType::ViewPlaylist, Some(3)));
    assert_eq!(nav.back(PageType::ViewPlaylist), (PageType::Playlists, None));
    assert_eq!(page_back(PageType::Settings, (PageType::ImportSpotify, None)), (PageType::ImportSpotify, None));
}

#[test]
fn import_counts_arrivals_until_the_playlist_is_complete() {
    let mut page = ImportPage::new(dirs(None), Some(String::from("id")), None);
    assert!(!page.can_save());
    page.search_result(song(1, false));
    assert_eq!(page.notification, Some(SpotifyNotification::Waiting(1)));
    assert_eq!(page.notification_text().unwrap(), "Not ready: 1 / 0 received.");
    page.spotify_playlist_name(String::from("Mix"), 2);
    page.search_result(song(2, false));
    assert_eq!(page.notification, Some(SpotifyNotification::Finished));
    assert_eq!(page.notification_text().unwrap(), "Finished");
    assert_eq!(page.notification_colour(), Some(NoticeColour::Green));
    assert!(page.can_save());
    let p = page.save_playlist().unwrap();
    assert_eq!((p.id, p.name.as_str()), (0, "Mix"));
    assert!(page.saved);
    assert!(!page.can_save());
    let statements = page.playlist_created(&playlist(9, "Mix"));
    assert_eq!(statements.len(), 2);
    assert_eq!(statements[1].query, INSERT_ENTRY);
    let bound: Vec<usize> = statements[1].params.params().iter().map(|p| p.usize()).collect();
    assert_eq!(bound, vec![9, 2]);
}

#[test]
fn import_reports_authentication() {
    let mut page = ImportPage::new(dirs(None), Some(String::from("id")), None);
    page.authentication_failed();
    assert_eq!(page.notification, Some(SpotifyNotification::NoIdOrSecret));
    assert_eq!(page.notification_text().unwrap(), "No ID/SECRET");
    let mut page = ImportPage::new(dirs(None), Some(String::from("id")), Some(String::from("s")));
    page.authentication_failed();
    assert_eq!(page.notification, Some(SpotifyNotification::NotAuthenticated));
    assert_eq!(page.notification_colour(), Some(NoticeColour::Yellow));
    page.authentication_failed_again();
    assert_eq!(page.notification_colour(), Some(NoticeColour::Red));
    page.authentication_success();
    assert_eq!(page.notification_text().unwrap(), "Successfully Authenticated");
    assert!(!page.failed_again);
    page.spotify_invalid_id();
    assert_eq!(page.notification, Some(SpotifyNotification::InvalidID));
    assert_eq!(page.notification_text().unwrap(), "Not Authenticated");
    page.clear_notification();
    assert!(page.notification.is_none());
    assert!(page.notification_text().is_none());
    assert!(page.notification_colour().is_none());
}

#[test]
fn a_new_link_clears_the_import() {
    let mut page = ImportPage::new(dirs(None), None, None);
    page.text_input(String::from("https://open.spotify.com/playlist/x"));
    page.search_result(song(1, false));
    page.saved = true;
    page.spotify_playlist();
    assert!(page.input.is_empty());
    assert!(page.songs.is_empty());
    assert!(!page.saved);
    assert!(page.save_playlist().is_none());
    assert!(page.saved);
}

#[test]
fn search_lists_streamed_songs_and_hides_those_in_the_playlist() {
    let mut page = SearchPage::new(dirs(Some("/deps/yt-dlp")), 4);
    assert_eq!(page.title(), "Loading...");
    assert_eq!(page.target_playlist_id(), 4);
    page.song_stream(song(1, true));
    page.search_result(song(2, false), false);
    page.search_result(song(3, false), true);
    let visible: Vec<usize> = page.visible_results().iter().map(|s| s.id).collect();
    assert_eq!(visible, vec![2, 3]);
    page.song_added_to_playlist(2);
    let visible: Vec<usize> = page.visible_results().iter().map(|s| s.id).collect();
    assert_eq!(visible, vec![3]);
}

#[test]
fn submitting_a_search_takes_the_query() {
    let mut page = SearchPage::new(dirs(Some("/deps/yt-dlp")), 4);
    page.text_input(String::from("rick"));
    page.song_stream(song(1, true));
    let (dlp, query) = page.submit_search().unwrap();
    assert_eq!((dlp.as_str(), query.as_str()), ("/deps/yt-dlp", "rick"));
    assert!(page.query.is_empty());
    assert!(page.search_results.as_ref().unwrap().is_empty());
    assert!(matches!(page.search_notify, Some(SearchState::Searching)));
    let mut page = SearchPage::new(dirs(None), 4);
    page.text_input(String::from("kept"));
    assert!(page.submit_search().is_none());
    assert_eq!(page.query, "kept");
    assert!(page.search_results.is_none());
}

#[test]
fn online_results_wait_in_the_notice_and_are_kept() {
    let mut page = SearchPage::new(dirs(Some("/d")), 1);
    page.submit_search();
    page.search_result(song(7, false), true);
    page.search_result(song(8, false), true);
    match &page.search_notify {
        Some(SearchState::Received(v)) => assert_eq!(v.len(), 2),
        _ => panic!("expected received songs"),
    }
    assert!(page.visible_results().is_empty());
    page.remove_search_status();
    assert!(page.search_notify.is_none());
    let visible: Vec<usize> = page.visible_results().iter().map(|s| s.id).collect();
    assert_eq!(visible, vec![7, 8]);
    page.submit_search();
    page.search_result(song(9, false), true);
    page.dlp_warning();
    assert!(matches!(page.search_notify, Some(SearchState::SearchFailed)));
    let visible: Vec<usize> = page.visible_results().iter().map(|s| s.id).collect();
    assert_eq!(visible, vec![9]);
}

#[test]
fn every_online_result_is_fetched() {
    let page = SearchPage::new(dirs(Some("/d")), 1);
    let ids: Vec<String> = (0..5).map(|i| format!("id{i}")).collect();
    let pool = page.load_search_results(ids.clone());
    assert_eq!(pool.ids, ids);
    assert!(!pool.running);
}

#[test]
fn playlist_page_opens_only_with_its_data() {
    assert!(PlaylistPage::new(None, Some(playlist(1, "P")), Ok(vec![]), None, dirs(None)).is_err());
    assert!(PlaylistPage::new(Some(1), None, Ok(vec![]), None, dirs(None)).is_err());
    assert!(PlaylistPage::new(Some(1), Some(playlist(1, "P")), Err(ResonateError::SQLError), None, dirs(None)).is_err());
    let songs = vec![song(1, true), song(2, false), song(3, false)];
    assert_eq!(downloaded_info(&songs), (1, 3));
    let page = PlaylistPage::new(Some(1), Some(playlist(1, "P")), Ok(songs), Some((1, 3)), dirs(None)).unwrap();
    assert_eq!(page.total_songs, 3);
    assert_eq!(page.downloaded, 1);
    assert!(page.show_download_banner());
    assert_eq!(page.banner_text(), "1 / 3 downloaded");
    let missing: Vec<usize> = page.missing().iter().map(|s| s.id).collect();
    assert_eq!(missing, vec![2, 3]);
}

#[test]
fn playlist_page_tracks_downloads_and_removals() {
    let songs = vec![song(1, true), song(2, false), song(2, false)];
    let mut page = PlaylistPage::new(Some(1), Some(playlist(1, "P")), Ok(songs), None, dirs(None)).unwrap();
    assert_eq!(page.downloaded, 0);
    page.song_downloaded(&song(2, true));
    assert_eq!(page.downloaded, 2);
    assert!(page.songs.iter().all(|s| s.music_path.is_some()));
    page.remove_song(2);
    assert_eq!(page.songs.iter().map(|s| s.id).collect::<Vec<_>>(), vec![1, 2]);
    page.remove_song(77);
    assert_eq!(page.songs.len(), 2);
    page.hover(1, true);
    assert!(page.is_hovered(1));
    page.hover(1, false);
    assert!(!page.is_hovered(1));
    page.text_input(String::from("q"));
    assert_eq!(page.submit_search(), "q");
    assert!(page.songs.is_empty());
    page.search_finished(Ok(vec![song(5, false)]));
    assert_eq!(page.songs.len(), 1);
    page.search_finished(Err(ResonateError::SQLError));
    assert_eq!(page.songs.len(), 1);
    assert!(matches!(PlaylistPage::song_action(&song(5, false)), SongAction::Download(_)));
    assert!(matches!(PlaylistPage::song_action(&song(5, true)), SongAction::Queue(_)));
}
