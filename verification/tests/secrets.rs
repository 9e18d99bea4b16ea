use resonate::database::{REMOVE_SECRET_BY_NAME, INSERT_SECRET};
use resonate::secrets::{fm_secret_statements, secrets_loaded, settings_page_secrets, startup_secret_names, SettingsPage};
use resonate::settings::{Secret, SecretKind};

fn s(v: &str) -> Option<String> {
    Some(v.to_string())
}

#[test]
fn startup_reads_five_secrets_in_order() {
    assert_eq!(startup_secret_names(), vec!["SPOTIFY_ID", "SPOTIFY_SECRET", "FM_KEY", "FM_SECRET", "FM_SESSION"]);
}

#[test]
fn loaded_secrets_are_taken_from_the_end() {
    let answer = vec![
        None,
        Some(Secret::SpotifyID(String::from("id"))),
        Some(Secret::SpotifySecret(String::from("sec"))),
        Some(Secret::FMKey(String::from("key"))),
        Some(Secret::FMSecret(String::from("fsec"))),
        None,
    ];
    let l = secrets_loaded(answer);
    assert_eq!(l.spotify_id, s("id"));
    assert_eq!(l.spotify_secret, s("sec"));
    assert_eq!(l.fm_key, s("key"));
    assert_eq!(l.fm_secret, s("fsec"));
    assert_eq!(l.fm_session, None);
    assert!(l.authenticate);
}

#[test]
fn a_session_or_a_missing_key_skips_authentication() {
    let l = secrets_loaded(vec![
        None,
        None,
        Some(Secret::FMKey(String::from("key"))),
        Some(Secret::FMSecret(String::from("fsec"))),
        Some(Secret::FMSession(String::from("sess"))),
    ]);
    assert!(!l.authenticate);
    assert_eq!(l.fm_session, s("sess"));
    let l = secrets_loaded(vec![None, None, None, Some(Secret::FMSecret(String::from("x"))), None]);
    assert!(!l.authenticate);
}

#[test]
fn a_secret_in_the_wrong_place_counts_as_missing() {
    let l = secrets_loaded(vec![
        Some(Secret::FMKey(String::from("misplaced"))),
        None,
        Some(Secret::SpotifyID(String::from("wrong kind"))),
        Some(Secret::FMSecret(String::from("fsec"))),
        None,
    ]);
    assert_eq!(l.spotify_id, None);
    assert_eq!(l.fm_key, None);
    assert!(l.authenticate);
}

#[test]
fn the_settings_page_is_filled_in_order() {
    let v = settings_page_secrets(&s("k"), &None, &s("sess"), &s("id"), &None);
    let kinds: Vec<String> = v.iter().map(|x| format!("{x:?}")).collect();
    assert_eq!(kinds, vec!["FMKey(\"k\")", "FMSession(\"sess\")", "SpotifyID(\"id\")"]);
    assert!(settings_page_secrets(&None, &None, &None, &None, &None).is_empty());
}

#[test]
fn last_fm_credentials_are_stored_after_authentication() {
    let v = fm_secret_statements(&s("k"), &None, &s("sess"));
    assert_eq!(v.len(), 2);
    assert_eq!(v[0].0.query, REMOVE_SECRET_BY_NAME);
    assert_eq!(v[0].1.query, INSERT_SECRET);
    let names: Vec<String> = v.iter().map(|p| p.1.params.params()[0].string()).collect();
    assert_eq!(names, vec!["FM_KEY", "FM_SESSION"]);
    assert_eq!(v[1].1.params.params()[1].string(), "sess");
}

#[test]
fn edited_secrets_are_saved() {
    let mut page = SettingsPage::new(None, s("old"), None, None, None);
    assert!(page.save_request(SecretKind::SpotifyID).is_none());
    page.change_secret(Secret::SpotifyID(String::from("new id")));
    page.change_secret(Secret::FMSession(String::from("sess")));
    match page.save_request(SecretKind::SpotifyID) {
        Some(Secret::SpotifyID(v)) => assert_eq!(v, "new id"),
        other => panic!("unexpected {other:?}"),
    }
    match page.save_request(SecretKind::SpotifySecret) {
        Some(Secret::SpotifySecret(v)) => assert_eq!(v, "old"),
        other => panic!("unexpected {other:?}"),
    }
    assert_eq!(page.fm_session, s("sess"));
    assert!(page.fm_key.is_none());
}
