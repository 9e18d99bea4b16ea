//! The credentials of Spotify and Last.fm: which are read at start-up, how
//! the answer is taken apart, which are stored after an authentication, and
//! the settings page that edits them.
use vstd::prelude::*;
use crate::database::{DatabaseInterface, Statement, statement_view, ParamView, REMOVE_SECRET_BY_NAME, INSERT_SECRET};
use crate::music::{clone_opt_string, opt_view};
use crate::settings::{Secret, SecretKind, secret_view, kind_name, opt_secret_view};

verus! {

/// The kinds of secret read at start-up, in the order they are asked for.
pub open spec fn startup_kinds() -> Seq<SecretKind> {
    seq![
        SecretKind::SpotifyID,
        SecretKind::SpotifySecret,
        SecretKind::FMKey,
        SecretKind::FMSecret,
        SecretKind::FMSession,
    ]
}

/// The name a kind of secret is stored under.
pub fn kind_name_string(kind: SecretKind) -> (r: String)
    ensures
        r@ == kind_name(kind),
{
    match kind {
        SecretKind::SpotifyID => String::from_str("SPOTIFY_ID"),
        SecretKind::SpotifySecret => String::from_str("SPOTIFY_SECRET"),
        SecretKind::FMKey => String::from_str("FM_KEY"),
        SecretKind::FMSecret => String::from_str("FM_SECRET"),
        SecretKind::FMSession => String::from_str("FM_SESSION"),
    }
}

/// The names of the secrets read at start-up, in order.
pub fn startup_secret_names() -> (r: Vec<String>)
    ensures
        r.len() == 5,
        forall|i: int| 0 <= i < 5 ==> #[trigger] r@[i]@ == kind_name(startup_kinds()[i]),
{
    let r = vec![
        kind_name_string(SecretKind::SpotifyID),
        kind_name_string(SecretKind::SpotifySecret),
        kind_name_string(SecretKind::FMKey),
        kind_name_string(SecretKind::FMSecret),
        kind_name_string(SecretKind::FMSession),
    ];
    assert forall|i: int| 0 <= i < 5 implies #[trigger] r@[i]@ == kind_name(startup_kinds()[i]) by {
        if i == 0 {
        } else if i == 1 {
        } else if i == 2 {
        } else if i == 3 {
        } else {
        }
    }
    r
}

/// The text of a secret that was found and is of the given kind.
pub open spec fn text_of_kind(s: Option<Secret>, kind: SecretKind) -> Option<Seq<char>> {
    match s {
        Some(x) => if secret_view(x).0 == kind {
            Some(secret_view(x).1)
        } else {
            None
        },
        None => None,
    }
}

/// The text of a secret that was found and is of the given kind.
pub fn take_text_of_kind(s: Option<Secret>, kind: SecretKind) -> (r: Option<String>)
    ensures
        opt_view(r) == text_of_kind(s, kind),
{
    match s {
        Some(Secret::SpotifyID(v)) => if kind == SecretKind::SpotifyID { Some(v) } else { None },
        Some(Secret::SpotifySecret(v)) => if kind == SecretKind::SpotifySecret { Some(v) } else { None },
        Some(Secret::FMKey(v)) => if kind == SecretKind::FMKey { Some(v) } else { None },
        Some(Secret::FMSecret(v)) => if kind == SecretKind::FMSecret { Some(v) } else { None },
        Some(Secret::FMSession(v)) => if kind == SecretKind::FMSession { Some(v) } else { None },
        None => None,
    }
}

/// The secrets read at start-up, taken apart.
pub struct LoadedSecrets {
    pub spotify_id: Option<String>,
    pub spotify_secret: Option<String>,
    pub fm_key: Option<String>,
    pub fm_secret: Option<String>,
    pub fm_session: Option<String>,
    /// Whether a Last.fm session is to be asked for: the key and the secret
    /// were found and no session was.
    pub authenticate: bool,
}

/// Takes apart the answer to the start-up read: its last five entries are,
/// in order, the Spotify id, the Spotify secret, the Last.fm key, the Last.fm
/// secret and the Last.fm session. An entry of another kind than its place
/// asks for counts as missing, though it still counts as found for the
/// decision to ask Last.fm for a session.
pub fn secrets_loaded(secrets: Vec<Option<Secret>>) -> (r: LoadedSecrets)
    requires
        secrets.len() >= 5,
    ensures
        ({
            let n = secrets.len() as int;
            &&& opt_view(r.fm_session) == text_of_kind(secrets@[n - 1], SecretKind::FMSession)
            &&& opt_view(r.fm_secret) == text_of_kind(secrets@[n - 2], SecretKind::FMSecret)
            &&& opt_view(r.fm_key) == text_of_kind(secrets@[n - 3], SecretKind::FMKey)
            &&& opt_view(r.spotify_secret) == text_of_kind(secrets@[n - 4], SecretKind::SpotifySecret)
            &&& opt_view(r.spotify_id) == text_of_kind(secrets@[n - 5], SecretKind::SpotifyID)
            &&& r.authenticate == (secrets@[n - 3] is Some && secrets@[n - 2] is Some && secrets@[n
                - 1] is None)
        }),
{
    let ghost s = secrets@;
    let mut secrets = secrets;
    let fm_session = secrets.pop().unwrap();
    let fm_secret = secrets.pop().unwrap();
    let fm_key = secrets.pop().unwrap();
    let spotify_secret = secrets.pop().unwrap();
    let spotify_id = secrets.pop().unwrap();
    let authenticate = fm_key.is_some() && fm_secret.is_some() && fm_session.is_none();
    LoadedSecrets {
        spotify_id: take_text_of_kind(spotify_id, SecretKind::SpotifyID),
        spotify_secret: take_text_of_kind(spotify_secret, SecretKind::SpotifySecret),
        fm_key: take_text_of_kind(fm_key, SecretKind::FMKey),
        fm_secret: take_text_of_kind(fm_secret, SecretKind::FMSecret),
        fm_session: take_text_of_kind(fm_session, SecretKind::FMSession),
        authenticate,
    }
}

/// The sequence of the value when there is one, empty otherwise.
pub open spec fn present<T>(o: Option<T>) -> Seq<T> {
    match o {
        Some(x) => seq![x],
        None => Seq::empty(),
    }
}

/// A secret of the given kind with the value, when there is a value.
pub open spec fn entry_of(kind: SecretKind, value: Option<Seq<char>>) -> Option<(SecretKind, Seq<char>)> {
    match value {
        Some(v) => Some((kind, v)),
        None => None,
    }
}

/// The secret of the given kind with the value.
pub fn make_secret(kind: SecretKind, value: String) -> (r: Secret)
    ensures
        secret_view(r) == (kind, value@),
{
    match kind {
        SecretKind::SpotifyID => Secret::SpotifyID(value),
        SecretKind::SpotifySecret => Secret::SpotifySecret(value),
        SecretKind::FMKey => Secret::FMKey(value),
        SecretKind::FMSecret => Secret::FMSecret(value),
        SecretKind::FMSession => Secret::FMSession(value),
    }
}

/// Appends the secret of the given kind when there is a value.
fn push_present(out: &mut Vec<Secret>, kind: SecretKind, value: &Option<String>)
    ensures
        final(out)@.map_values(|s: Secret| secret_view(s)) == old(out)@.map_values(
            |s: Secret| secret_view(s),
        ) + present(entry_of(kind, opt_view(*value))),
{
    match value {
        Some(v) => {
            out.push(make_secret(kind, v.clone()));
        },
        None => {},
    }
    assert(final(out)@.map_values(|s: Secret| secret_view(s)) =~= old(out)@.map_values(
        |s: Secret| secret_view(s),
    ) + present(entry_of(kind, opt_view(*value))));
}

/// The secrets the settings page is filled with when it opens: the Last.fm
/// key, secret and session, then the Spotify id and secret, each one that is
/// known.
pub fn settings_page_secrets(
    fm_key: &Option<String>,
    fm_secret: &Option<String>,
    fm_session: &Option<String>,
    spotify_id: &Option<String>,
    spotify_secret: &Option<String>,
) -> (r: Vec<Secret>)
    ensures
        r@.map_values(|s: Secret| secret_view(s)) == present(entry_of(SecretKind::FMKey, opt_view(*fm_key)))
            + present(entry_of(SecretKind::FMSecret, opt_view(*fm_secret))) + present(
            entry_of(SecretKind::FMSession, opt_view(*fm_session)),
        ) + present(entry_of(SecretKind::SpotifyID, opt_view(*spotify_id))) + present(
            entry_of(SecretKind::SpotifySecret, opt_view(*spotify_secret)),
        ),
{
    let mut r: Vec<Secret> = Vec::new();
    assert(r@.map_values(|s: Secret| secret_view(s)) =~= Seq::<(SecretKind, Seq<char>)>::empty());
    push_present(&mut r, SecretKind::FMKey, fm_key);
    push_present(&mut r, SecretKind::FMSecret, fm_secret);
    push_present(&mut r, SecretKind::FMSession, fm_session);
    push_present(&mut r, SecretKind::SpotifyID, spotify_id);
    push_present(&mut r, SecretKind::SpotifySecret, spotify_secret);
    r
}

/// The plain values of the statements that store one secret.
pub open spec fn store_view(kind: SecretKind, value: Seq<char>) -> ((&'static str, Seq<ParamView>), (&'static str, Seq<ParamView>)) {
    (
        (REMOVE_SECRET_BY_NAME, seq![ParamView::Text(kind_name(kind))]),
        (INSERT_SECRET, seq![ParamView::Text(kind_name(kind)), ParamView::Text(value)]),
    )
}

/// The plain values of a list of statement pairs.
pub open spec fn pair_views(v: Seq<(Statement, Statement)>) -> Seq<((&'static str, Seq<ParamView>), (&'static str, Seq<ParamView>))> {
    v.map_values(|p: (Statement, Statement)| (statement_view(p.0), statement_view(p.1)))
}

/// The store statements of one optional secret.
pub open spec fn present_store(kind: SecretKind, value: Option<Seq<char>>) -> Seq<((&'static str, Seq<ParamView>), (&'static str, Seq<ParamView>))> {
    match value {
        Some(v) => seq![store_view(kind, v)],
        None => Seq::empty(),
    }
}

/// Appends the statements that store a secret, when there is a value.
fn push_store(out: &mut Vec<(Statement, Statement)>, kind: SecretKind, value: &Option<String>)
    ensures
        pair_views(final(out)@) == pair_views(old(out)@) + present_store(kind, opt_view(*value)),
{
    match value {
        Some(v) => {
            out.push(DatabaseInterface::insert_or_update_secret(kind_name_string(kind), v.clone()));
        },
        None => {},
    }
    assert(pair_views(final(out)@) =~= pair_views(old(out)@) + present_store(kind, opt_view(*value)));
}

/// The statements that store the Last.fm credentials after an
/// authentication: for the key, the secret and the session, in that order,
/// each one that is known.
pub fn fm_secret_statements(
    fm_key: &Option<String>,
    fm_secret: &Option<String>,
    fm_session: &Option<String>,
) -> (r: Vec<(Statement, Statement)>)
    ensures
        pair_views(r@) == present_store(SecretKind::FMKey, opt_view(*fm_key)) + present_store(
            SecretKind::FMSecret,
            opt_view(*fm_secret),
        ) + present_store(SecretKind::FMSession, opt_view(*fm_session)),
{
    let mut r: Vec<(Statement, Statement)> = Vec::new();
    assert(pair_views(r@) =~= Seq::empty());
    push_store(&mut r, SecretKind::FMKey, fm_key);
    push_store(&mut r, SecretKind::FMSecret, fm_secret);
    push_store(&mut r, SecretKind::FMSession, fm_session);
    r
}

/// The state of the settings page: the five secrets as they are edited.
pub struct SettingsPage {
    pub spotify_id: Option<String>,
    pub spotify_secret: Option<String>,
    pub fm_key: Option<String>,
    pub fm_secret: Option<String>,
    pub fm_session: Option<String>,
}

/// The value a settings page shows for a kind of secret.
pub open spec fn page_value(p: SettingsPage, kind: SecretKind) -> Option<Seq<char>> {
    match kind {
        SecretKind::SpotifyID => opt_view(p.spotify_id),
        SecretKind::SpotifySecret => opt_view(p.spotify_secret),
        SecretKind::FMKey => opt_view(p.fm_key),
        SecretKind::FMSecret => opt_view(p.fm_secret),
        SecretKind::FMSession => opt_view(p.fm_session),
    }
}

impl SettingsPage {
    /// A settings page showing the stored secrets.
    pub fn new(
        spotify_id: Option<String>,
        spotify_secret: Option<String>,
        fm_key: Option<String>,
        fm_secret: Option<String>,
        fm_session: Option<String>,
    ) -> (r: SettingsPage)
        ensures
            r.spotify_id == spotify_id,
            r.spotify_secret == spotify_secret,
            r.fm_key == fm_key,
            r.fm_secret == fm_secret,
            r.fm_session == fm_session,
    {
        SettingsPage { spotify_id, spotify_secret, fm_key, fm_secret, fm_session }
    }

    /// A secret was edited: its box now holds the new value, the others are
    /// unchanged.
    pub fn change_secret(&mut self, secret: Secret)
        ensures
            forall|k: SecretKind|
                #[trigger] page_value(*final(self), k) == if k == secret_view(secret).0 {
                    Some(secret_view(secret).1)
                } else {
                    page_value(*old(self), k)
                },
    {
        match secret {
            Secret::FMKey(v) => self.fm_key = Some(v),
            Secret::FMSecret(v) => self.fm_secret = Some(v),
            Secret::FMSession(v) => self.fm_session = Some(v),
            Secret::SpotifyID(v) => self.spotify_id = Some(v),
            Secret::SpotifySecret(v) => self.spotify_secret = Some(v),
        }
    }

    /// What the save button of a kind of secret stores: the value in its box,
    /// when there is one.
    pub fn save_request(&self, kind: SecretKind) -> (r: Option<Secret>)
        ensures
            opt_secret_view(r) == entry_of(kind, page_value(*self, kind)),
    {
        let value = match kind {
            SecretKind::SpotifyID => &self.spotify_id,
            SecretKind::SpotifySecret => &self.spotify_secret,
            SecretKind::FMKey => &self.fm_key,
            SecretKind::FMSecret => &self.fm_secret,
            SecretKind::FMSession => &self.fm_session,
        };
        match clone_opt_string(value) {
            Some(v) => Some(make_secret(kind, v)),
            None => None,
        }
    }
}

/// After a secret is edited on the settings page, its save button stores
/// exactly that secret, and the other kinds are untouched.
pub proof fn law_edited_secret_is_saved(before: SettingsPage, after: SettingsPage, secret: Secret)
    requires
        forall|k: SecretKind|
            #[trigger] page_value(after, k) == if k == secret_view(secret).0 {
                Some(secret_view(secret).1)
            } else {
                page_value(before, k)
            },
    ensures
        entry_of(secret_view(secret).0, page_value(after, secret_view(secret).0)) == Some(secret_view(secret)),
        forall|k: SecretKind|
            k != secret_view(secret).0 ==> #[trigger] entry_of(k, page_value(after, k)) == entry_of(
                k,
                page_value(before, k),
            ),
{
    assert(page_value(after, secret_view(secret).0) == Some(secret_view(secret).1));
}

} // verus!
