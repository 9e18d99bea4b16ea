//! The configuration file and the stored secrets.
//!
//! The configuration file holds lines `name = value`. Names are read without
//! regard to case; a line with another name, or with other than one `=`, is
//! skipped.
use vstd::prelude::*;
use crate::music::opt_view;
use crate::number::{parse_usize, parse_usize_spec};
use crate::text::{chars_of, split_chars, split_seq, string_of, trim_chars, trim_spec, views_of};

verus! {

/// `s` in lower case, as `str::to_lowercase` gives it.
pub uninterp spec fn lowercased(s: Seq<char>) -> Seq<char>;

/// Converts a string to lower case.
///
/// Wraps `str::to_lowercase`, which maps each character by the Unicode
/// `Lowercase` mapping. Its result depends on the text alone; the contract
/// names that result `lowercased` and says nothing more of it.
#[verifier::external_body]
fn to_lowercase(s: &str) -> (r: String)
    ensures
        r@ == lowercased(s@),
{
    s.to_lowercase()
}

/// A setting of the configuration file.
#[derive(Debug, Clone, Copy, PartialEq, Eq, Structural)]
pub enum Setting {
    Colour,
    MaxDownloadConcurrency,
}

/// The setting a lower-case name stands for.
pub open spec fn setting_named(name: Seq<char>) -> Option<Setting> {
    if name == "colour"@ {
        Some(Setting::Colour)
    } else if name == "max_download_concurrency"@ {
        Some(Setting::MaxDownloadConcurrency)
    } else {
        None
    }
}

impl Setting {
    /// The setting a name already in lower case stands for.
    pub fn from_lowercase(name: &str) -> (r: Option<Setting>)
        ensures
            r == setting_named(name@),
    {
        let n = String::from_str(name);
        let colour = String::from_str("colour");
        let conc = String::from_str("max_download_concurrency");
        if n == colour {
            Some(Setting::Colour)
        } else if n == conc {
            Some(Setting::MaxDownloadConcurrency)
        } else {
            None
        }
    }

    /// The setting a name stands for, in any case.
    pub fn from_string(name: &str) -> (r: Option<Setting>)
        ensures
            r == setting_named(lowercased(name@)),
    {
        let lower = to_lowercase(name);
        Self::from_lowercase(lower.as_str())
    }
}

/// One recognised line of the configuration file.
#[derive(Debug)]
pub struct ConfigLine {
    pub target_setting: Setting,
    pub value: String,
}

/// `p` without one trailing carriage return.
pub open spec fn strip_cr(p: Seq<char>) -> Seq<char> {
    if p.len() > 0 && p.last() == '\r' {
        p.drop_last()
    } else {
        p
    }
}

/// The lines of `s` as `str::lines` gives them: split at line feeds, a
/// carriage return before a line feed dropped, and no empty last line after
/// a final line feed.
pub open spec fn lines_spec(s: Seq<char>) -> Seq<Seq<char>> {
    if s.len() == 0 {
        Seq::empty()
    } else {
        let parts = split_seq(s, '\n');
        let n = if s.last() == '\n' {
            parts.len() - 1
        } else {
            parts.len() as int
        };
        Seq::new(
            n as nat,
            |i: int|
                if i < parts.len() - 1 {
                    strip_cr(parts[i])
                } else {
                    parts[i]
                },
        )
    }
}

/// What a line of the configuration file says, if it is recognised: the
/// pieces between `=` signs, trimmed, must be exactly two, and the first must
/// name a setting.
pub open spec fn config_line_spec(line: Seq<char>) -> Option<(Setting, Seq<char>)> {
    let args = split_seq(line, '=');
    if args.len() == 2 {
        match setting_named(lowercased(trim_spec(args[0]))) {
            Some(st) => Some((st, trim_spec(args[1]))),
            None => None,
        }
    } else {
        None
    }
}

/// The recognised lines of a list of lines, in order.
pub open spec fn config_lines_spec(lines: Seq<Seq<char>>) -> Seq<(Setting, Seq<char>)>
    decreases lines.len(),
{
    if lines.len() == 0 {
        Seq::empty()
    } else {
        let init = config_lines_spec(lines.drop_last());
        match config_line_spec(lines.last()) {
            Some(l) => init.push(l),
            None => init,
        }
    }
}

/// The recognised lines of a configuration text, in order.
pub open spec fn parse_config_spec(text: Seq<char>) -> Seq<(Setting, Seq<char>)> {
    config_lines_spec(lines_spec(text))
}

/// A recognised line as plain values.
pub open spec fn line_view(l: ConfigLine) -> (Setting, Seq<char>) {
    (l.target_setting, l.value@)
}

/// The lines of a text.
pub fn split_lines(s: &Vec<char>) -> (r: Vec<Vec<char>>)
    ensures
        views_of(r@) == lines_spec(s@),
{
    let mut r: Vec<Vec<char>> = Vec::new();
    if s.len() == 0 {
        assert(views_of(r@) =~= lines_spec(s@));
        return r;
    }
    let parts = split_chars(s, '\n');
    let ghost ps = views_of(parts@);
    let n: usize = if s[s.len() - 1] == '\n' {
        parts.len() - 1
    } else {
        parts.len()
    };
    let mut i: usize = 0;
    while i < n
        invariant
            i <= n <= parts.len(),
            ps == views_of(parts@),
            ps == split_seq(s@, '\n'),
            s@.len() > 0,
            n == (if s@.last() == '\n' { ps.len() - 1 } else { ps.len() as int }),
            views_of(r@) == lines_spec(s@).take(i as int),
        decreases n - i,
    {
        let part = &parts[i];
        let mut line: Vec<char> = Vec::new();
        let mut len = part.len();
        if i < parts.len() - 1 && len > 0 && part[len - 1] == '\r' {
            len = len - 1;
        }
        let mut k: usize = 0;
        while k < len
            invariant
                k <= len <= part.len(),
                line@ == part@.take(k as int),
            decreases len - k,
        {
            line.push(part[k]);
            assert(part@.take(k + 1) =~= part@.take(k as int).push(part@[k as int]));
            k = k + 1;
        }
        assert(ps[i as int] == part@);
        assert(line@ =~= lines_spec(s@)[i as int]);
        let ghost before = r@;
        r.push(line);
        assert(views_of(r@) =~= views_of(before).push(line@));
        assert(lines_spec(s@).take(i + 1) =~= lines_spec(s@).take(i as int).push(lines_spec(s@)[i as int]));
        i = i + 1;
    }
    assert(lines_spec(s@).take(n as int) =~= lines_spec(s@));
    r
}

/// What one line of the configuration file says, if it is recognised.
pub fn parse_config_line(line: &Vec<char>) -> (r: Option<ConfigLine>)
    ensures
        match r {
            Some(l) => config_line_spec(line@) == Some(line_view(l)),
            None => config_line_spec(line@) is None,
        },
{
    let args = split_chars(line, '=');
    assert(views_of(args@).len() == args@.len());
    if args.len() == 2 {
        assert(views_of(args@)[0] == args@[0]@);
        assert(views_of(args@)[1] == args@[1]@);
        let name = string_of(&trim_chars(&args[0]));
        match Setting::from_string(name.as_str()) {
            Some(st) => Some(ConfigLine { target_setting: st, value: string_of(&trim_chars(&args[1])) }),
            None => None,
        }
    } else {
        None
    }
}

/// The recognised lines of a configuration text, in order.
pub fn parse_config(text: &str) -> (r: Vec<ConfigLine>)
    ensures
        r@.map_values(|l: ConfigLine| line_view(l)) == parse_config_spec(text@),
{
    let cs = chars_of(text);
    let lines = split_lines(&cs);
    let ghost ls = views_of(lines@);
    let mut r: Vec<ConfigLine> = Vec::new();
    let mut i: usize = 0;
    while i < lines.len()
        invariant
            i <= lines.len(),
            ls == views_of(lines@),
            ls == lines_spec(text@),
            r@.map_values(|l: ConfigLine| line_view(l)) == config_lines_spec(ls.take(i as int)),
        decreases lines.len() - i,
    {
        assert(ls.take(i + 1).drop_last() =~= ls.take(i as int));
        assert(ls.take(i + 1).last() == lines@[i as int]@);
        let ghost before = r@;
        match parse_config_line(&lines[i]) {
            Some(l) => {
                r.push(l);
                assert(r@.map_values(|l: ConfigLine| line_view(l)) =~= before.map_values(
                    |l: ConfigLine| line_view(l),
                ).push(line_view(r@.last())));
            },
            None => {},
        }
        i = i + 1;
    }
    assert(ls.take(lines.len() as int) =~= ls);
    r
}

/// The values the configuration sets: the colour, as written, and the number
/// of downloads that may run at once.
#[derive(Debug)]
pub struct SettingsValues {
    pub colour: Option<String>,
    pub max_download_concurrency: usize,
}

/// The values after applying recognised lines in order, starting from no
/// colour and four downloads at once: a colour line sets the colour; a
/// concurrency line sets the number when its value parses.
pub open spec fn apply_lines_spec(lines: Seq<(Setting, Seq<char>)>) -> (Option<Seq<char>>, usize)
    decreases lines.len(),
{
    if lines.len() == 0 {
        (None, 4)
    } else {
        let (colour, conc) = apply_lines_spec(lines.drop_last());
        let (st, v) = lines.last();
        match st {
            Setting::Colour => (Some(v), conc),
            Setting::MaxDownloadConcurrency => match parse_usize_spec(v) {
                Some(n) => (colour, n),
                None => (colour, conc),
            },
        }
    }
}

impl SettingsValues {
    /// The values when there is no configuration: no colour and four
    /// downloads at once.
    pub fn defaults() -> (r: SettingsValues)
        ensures
            r.colour is None,
            r.max_download_concurrency == 4,
    {
        SettingsValues { colour: None, max_download_concurrency: 4 }
    }

    /// The values a configuration text sets.
    pub fn from_config(text: &str) -> (r: SettingsValues)
        ensures
            (opt_view(r.colour), r.max_download_concurrency) == apply_lines_spec(parse_config_spec(text@)),
    {
        let lines = parse_config(text);
        let ghost ls = lines@.map_values(|l: ConfigLine| line_view(l));
        let mut values = Self::defaults();
        let mut i: usize = 0;
        while i < lines.len()
            invariant
                i <= lines.len(),
                ls == lines@.map_values(|l: ConfigLine| line_view(l)),
                (opt_view(values.colour), values.max_download_concurrency) == apply_lines_spec(ls.take(i as int)),
            decreases lines.len() - i,
        {
            assert(ls.take(i + 1).drop_last() =~= ls.take(i as int));
            assert(ls.take(i + 1).last() == line_view(lines@[i as int]));
            let line = &lines[i];
            match line.target_setting {
                Setting::Colour => {
                    values.colour = Some(line.value.clone());
                },
                Setting::MaxDownloadConcurrency => {
                    match parse_usize(line.value.as_str()) {
                        Some(n) => {
                            values.max_download_concurrency = n;
                        },
                        None => {},
                    }
                },
            }
            i = i + 1;
        }
        assert(ls.take(lines.len() as int) =~= ls);
        values
    }
}

/// A stored secret: a credential of Spotify or Last.fm.
#[derive(Debug)]
pub enum Secret {
    SpotifyID(String),
    SpotifySecret(String),
    FMKey(String),
    FMSecret(String),
    FMSession(String),
}

impl Clone for Secret {
    fn clone(&self) -> (r: Self)
        ensures
            r == *self,
    {
        match self {
            Secret::SpotifyID(v) => Secret::SpotifyID(v.clone()),
            Secret::SpotifySecret(v) => Secret::SpotifySecret(v.clone()),
            Secret::FMKey(v) => Secret::FMKey(v.clone()),
            Secret::FMSecret(v) => Secret::FMSecret(v.clone()),
            Secret::FMSession(v) => Secret::FMSession(v.clone()),
        }
    }
}

/// The five kinds of secret.
#[derive(Debug, Clone, Copy, PartialEq, Eq, Structural)]
pub enum SecretKind {
    SpotifyID,
    SpotifySecret,
    FMKey,
    FMSecret,
    FMSession,
}

/// The kind and the text of a secret.
pub open spec fn secret_view(s: Secret) -> (SecretKind, Seq<char>) {
    match s {
        Secret::SpotifyID(v) => (SecretKind::SpotifyID, v@),
        Secret::SpotifySecret(v) => (SecretKind::SpotifySecret, v@),
        Secret::FMKey(v) => (SecretKind::FMKey, v@),
        Secret::FMSecret(v) => (SecretKind::FMSecret, v@),
        Secret::FMSession(v) => (SecretKind::FMSession, v@),
    }
}

/// The name a kind of secret is stored under.
pub open spec fn kind_name(k: SecretKind) -> Seq<char> {
    match k {
        SecretKind::SpotifyID => "SPOTIFY_ID"@,
        SecretKind::SpotifySecret => "SPOTIFY_SECRET"@,
        SecretKind::FMKey => "FM_KEY"@,
        SecretKind::FMSecret => "FM_SECRET"@,
        SecretKind::FMSession => "FM_SESSION"@,
    }
}

/// The kind of secret stored under a name.
pub open spec fn kind_named(name: Seq<char>) -> Option<SecretKind> {
    if name == "SPOTIFY_ID"@ {
        Some(SecretKind::SpotifyID)
    } else if name == "SPOTIFY_SECRET"@ {
        Some(SecretKind::SpotifySecret)
    } else if name == "FM_KEY"@ {
        Some(SecretKind::FMKey)
    } else if name == "FM_SECRET"@ {
        Some(SecretKind::FMSecret)
    } else if name == "FM_SESSION"@ {
        Some(SecretKind::FMSession)
    } else {
        None
    }
}

/// The secret stored under a name with a value, as plain values.
pub open spec fn secret_from_entry(name: Seq<char>, value: Seq<char>) -> Option<(SecretKind, Seq<char>)> {
    match kind_named(name) {
        Some(k) => Some((k, value)),
        None => None,
    }
}

/// The plain values of an optional secret.
pub open spec fn opt_secret_view(s: Option<Secret>) -> Option<(SecretKind, Seq<char>)> {
    match s {
        Some(x) => Some(secret_view(x)),
        None => None,
    }
}

impl Secret {
    /// The name the secret is stored under and its value.
    pub fn into_entry(self) -> (r: (String, String))
        ensures
            r.0@ == kind_name(secret_view(self).0),
            r.1@ == secret_view(self).1,
    {
        match self {
            Secret::SpotifyID(v) => (String::from_str("SPOTIFY_ID"), v),
            Secret::SpotifySecret(v) => (String::from_str("SPOTIFY_SECRET"), v),
            Secret::FMKey(v) => (String::from_str("FM_KEY"), v),
            Secret::FMSecret(v) => (String::from_str("FM_SECRET"), v),
            Secret::FMSession(v) => (String::from_str("FM_SESSION"), v),
        }
    }

    /// The secret stored under `name` with `value`; `None` for a name that is
    /// not one of the five.
    pub fn from_entry(name: &String, value: String) -> (r: Option<Secret>)
        ensures
            opt_secret_view(r) == secret_from_entry(name@, value@),
    {
        if *name == String::from_str("SPOTIFY_ID") {
            Some(Secret::SpotifyID(value))
        } else if *name == String::from_str("SPOTIFY_SECRET") {
            Some(Secret::SpotifySecret(value))
        } else if *name == String::from_str("FM_KEY") {
            Some(Secret::FMKey(value))
        } else if *name == String::from_str("FM_SECRET") {
            Some(Secret::FMSecret(value))
        } else if *name == String::from_str("FM_SESSION") {
            Some(Secret::FMSession(value))
        } else {
            None
        }
    }
}

/// With no recognised line the configuration keeps its defaults, and each
/// further line overrides what came before: a colour line sets the colour
/// to its value and keeps the number of downloads; a concurrency line sets
/// that number when its value reads as one, and otherwise changes nothing.
pub proof fn law_later_line_wins(lines: Seq<(Setting, Seq<char>)>, v: Seq<char>)
    ensures
        apply_lines_spec(Seq::empty()) == (None::<Seq<char>>, 4usize),
        apply_lines_spec(lines.push((Setting::Colour, v))) == (Some(v), apply_lines_spec(lines).1),
        parse_usize_spec(v) matches Some(n) ==> apply_lines_spec(lines.push((Setting::MaxDownloadConcurrency, v)))
            == (apply_lines_spec(lines).0, n),
        parse_usize_spec(v) is None ==> apply_lines_spec(lines.push((Setting::MaxDownloadConcurrency, v)))
            == apply_lines_spec(lines),
{
    assert(lines.push((Setting::Colour, v)).drop_last() =~= lines);
    assert(lines.push((Setting::MaxDownloadConcurrency, v)).drop_last() =~= lines);
}

/// A configuration's recognised lines keep their order, and lines that are
/// not recognised are skipped.
pub proof fn law_config_lines_in_order(lines: Seq<Seq<char>>, line: Seq<char>)
    ensures
        config_lines_spec(Seq::empty()) == Seq::<(Setting, Seq<char>)>::empty(),
        config_line_spec(line) matches Some(l) ==> config_lines_spec(lines.push(line)) == config_lines_spec(
            lines,
        ).push(l),
        config_line_spec(line) is None ==> config_lines_spec(lines.push(line)) == config_lines_spec(lines),
{
    assert(lines.push(line).drop_last() =~= lines);
}

/// A secret saved under its name is read back as the same secret.
pub proof fn law_secret_roundtrip(s: Secret)
    ensures
        secret_from_entry(kind_name(secret_view(s).0), secret_view(s).1) == Some(secret_view(s)),
{
    reveal_strlit("SPOTIFY_ID");
    reveal_strlit("SPOTIFY_SECRET");
    reveal_strlit("FM_KEY");
    reveal_strlit("FM_SECRET");
    reveal_strlit("FM_SESSION");
    assert("SPOTIFY_ID"@.len() == 10);
    assert("SPOTIFY_SECRET"@.len() == 14);
    assert("FM_KEY"@.len() == 6);
    assert("FM_SECRET"@.len() == 9);
    assert("FM_SESSION"@.len() == 10);
    assert("SPOTIFY_ID"@[0] != "FM_SESSION"@[0]);
}

} // verus!
