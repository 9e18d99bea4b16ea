use resonate::settings::{parse_config, parse_config_line, split_lines, Secret, Setting, SettingsValues};
use resonate::text::{chars_of, string_of};

#[test]
fn setting_names_ignore_case() {
    assert_eq!(Setting::from_string("colour"), Some(Setting::Colour));
    assert_eq!(Setting::from_string("COLOUR"), Some(Setting::Colour));
    assert_eq!(Setting::from_string("Max_Download_Concurrency"), Some(Setting::MaxDownloadConcurrency));
    assert_eq!(Setting::from_string("color"), None);
    assert_eq!(Setting::from_lowercase("colour"), Some(Setting::Colour));
    assert_eq!(Setting::from_lowercase("Colour"), None);
}

#[test]
fn lines_split_like_str_lines() {
    let lines = split_lines(&chars_of("a\r\nb\n\nc\n"));
    let texts: Vec<String> = lines.iter().map(string_of).collect();
    assert_eq!(texts, vec!["a", "b", "", "c"]);
    assert!(split_lines(&chars_of("")).is_empty());
    assert_eq!(split_lines(&chars_of("x")).len(), 1);
}

#[test]
fn config_lines_need_one_equals_sign_and_a_known_name() {
    let l = parse_config_line(&chars_of("  colour = #ff0000 ")).unwrap();
    assert_eq!(l.target_setting, Setting::Colour);
    assert_eq!(l.value, "#ff0000");
    assert!(parse_config_line(&chars_of("colour")).is_none());
    assert!(parse_config_line(&chars_of("colour = a = b")).is_none());
    assert!(parse_config_line(&chars_of("volume = 3")).is_none());
    let lines = parse_config("colour=red\nnoise\nMAX_DOWNLOAD_CONCURRENCY = 2\n");
    assert_eq!(lines.len(), 2);
    assert_eq!(lines[1].target_setting, Setting::MaxDownloadConcurrency);
    assert_eq!(lines[1].value, "2");
}

#[test]
fn values_default_and_override() {
    let d = SettingsValues::defaults();
    assert!(d.colour.is_none());
    assert_eq!(d.max_download_concurrency, 4);
    let v = SettingsValues::from_config("max_download_concurrency = 8\ncolour = #123456\n");
    assert_eq!(v.max_download_concurrency, 8);
    assert_eq!(v.colour.as_deref(), Some("#123456"));
    let v = SettingsValues::from_config("max_download_concurrency = lots\n");
    assert_eq!(v.max_download_concurrency, 4);
    let v = SettingsValues::from_config("max_download_concurrency = 1\nmax_download_concurrency = 3");
    assert_eq!(v.max_download_concurrency, 3);
    let v = SettingsValues::from_config("");
    assert_eq!(v.max_download_concurrency, 4);
}

#[test]
fn secrets_round_trip_through_their_entries() {
    let all = vec![
        Secret::SpotifyID(String::from("id")),
        Secret::SpotifySecret(String::from("s")),
        Secret::FMKey(String::from("k")),
        Secret::FMSecret(String::from("fs")),
        Secret::FMSession(String::from("sess")),
    ];
    let names = ["SPOTIFY_ID", "SPOTIFY_SECRET", "FM_KEY", "FM_SECRET", "FM_SESSION"];
    for (secret, name) in all.into_iter().zip(names) {
        let copy = secret.clone();
        let (n, v) = secret.into_entry();
        assert_eq!(n, name);
        let back = Secret::from_entry(&n, v).unwrap();
        assert_eq!(format!("{back:?}"), format!("{copy:?}"));
    }
    assert!(Secret::from_entry(&String::from("OTHER"), String::from("x")).is_none());
}
