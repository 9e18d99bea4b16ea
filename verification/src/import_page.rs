//! The page that imports a Spotify playlist: it gathers the songs found for
//! the playlist's tracks, reports progress and authentication, and saves the
//! playlist once every track has arrived.
use vstd::prelude::*;
use crate::database::{DatabaseInterface, Statement, statement_view, ParamView, INSERT_ENTRY};
use crate::filemanager::DataDir;
use crate::music::{Song, Playlist, opt_view};
use crate::number::{decimal, push_decimal};
use crate::text::push_str;

verus! {

/// The notice shown above the imported songs.
#[derive(Debug, Clone, Copy, PartialEq, Eq, Structural)]
pub enum SpotifyNotification {
    /// Some tracks have arrived; the number is how many.
    Waiting(usize),
    Finished,
    NotAuthenticated,
    NoIdOrSecret,
    InvalidID,
    Success,
}

/// The colour a notice is shown in.
#[derive(Debug, Clone, Copy, PartialEq, Eq, Structural)]
pub enum NoticeColour {
    Red,
    Yellow,
    Green,
}

/// The text of a notice; a waiting notice counts against the playlist's
/// size, or against zero while the size is unknown.
pub open spec fn notice_text(n: SpotifyNotification, size: Option<usize>) -> Seq<char> {
    match n {
        SpotifyNotification::NoIdOrSecret => "No ID/SECRET"@,
        SpotifyNotification::NotAuthenticated => "Not Authenticated"@,
        SpotifyNotification::InvalidID => "Not Authenticated"@,
        SpotifyNotification::Finished => "Finished"@,
        SpotifyNotification::Success => "Successfully Authenticated"@,
        SpotifyNotification::Waiting(received) => "Not ready: "@ + decimal(received as nat) + " / "@
            + decimal(
            match size {
                Some(s) => s as nat,
                None => 0,
            },
        ) + " received."@,
    }
}

/// The colour of a notice; a missing authentication turns from yellow to red
/// once a retry has failed too.
pub open spec fn notice_colour(n: SpotifyNotification, failed_again: bool) -> NoticeColour {
    match n {
        SpotifyNotification::NotAuthenticated => if failed_again {
            NoticeColour::Red
        } else {
            NoticeColour::Yellow
        },
        SpotifyNotification::Waiting(_) => NoticeColour::Yellow,
        SpotifyNotification::Finished => NoticeColour::Green,
        SpotifyNotification::Success => NoticeColour::Green,
        _ => NoticeColour::Red,
    }
}

/// The state of the import page.
pub struct ImportPage {
    pub directories: DataDir,
    /// The songs found so far, in the order they arrived.
    pub songs: Vec<Song>,
    /// The text of the share-link box.
    pub input: String,
    pub notification: Option<SpotifyNotification>,
    pub spotify_id: Option<String>,
    pub spotify_client: Option<String>,
    pub playlist_name: Option<String>,
    /// The number of tracks the playlist has, once known.
    pub playlist_size: Option<usize>,
    /// Whether the playlist has been saved.
    pub saved: bool,
    /// Whether authentication failed again after a retry.
    pub failed_again: bool,
}

/// The notice after `len` songs have arrived: finished when that is the
/// playlist's size, waiting otherwise.
pub open spec fn arrival_notice(len: usize, size: Option<usize>) -> SpotifyNotification {
    if size == Some(len) {
        SpotifyNotification::Finished
    } else {
        SpotifyNotification::Waiting(len)
    }
}

impl ImportPage {
    /// An empty import page.
    pub fn new(directories: DataDir, spotify_id: Option<String>, spotify_client: Option<String>) -> (r: ImportPage)
        ensures
            r.directories@ == directories@,
            r.songs@ == Seq::<Song>::empty(),
            r.input@ == Seq::<char>::empty(),
            r.notification is None,
            r.spotify_id == spotify_id,
            r.spotify_client == spotify_client,
            r.playlist_name is None,
            r.playlist_size is None,
            !r.saved,
            !r.failed_again,
    {
        ImportPage {
            directories,
            songs: Vec::new(),
            input: String::new(),
            notification: None,
            spotify_id,
            spotify_client,
            playlist_name: None,
            playlist_size: None,
            saved: false,
            failed_again: false,
        }
    }

    /// A song was found for one of the playlist's tracks.
    pub fn search_result(&mut self, song: Song)
        requires
            old(self).songs.len() < usize::MAX,
        ensures
            final(self).songs@ == old(self).songs@.push(song),
            *final(self) == (ImportPage {
                songs: final(self).songs,
                notification: Some(arrival_notice(final(self).songs.len(), old(self).playlist_size)),
                ..*old(self)
            }),
    {
        self.songs.push(song);
        let len = self.songs.len();
        self.notification = Some(SpotifyNotification::Waiting(len));
        match self.playlist_size {
            Some(size) => {
                if size == len {
                    self.notification = Some(SpotifyNotification::Finished);
                }
            },
            None => {},
        }
    }

    /// A new share link was submitted: the box and the songs are cleared and
    /// the playlist is no longer saved.
    pub fn spotify_playlist(&mut self)
        ensures
            final(self).songs@ == Seq::<Song>::empty(),
            final(self).input@ == Seq::<char>::empty(),
            *final(self) == (ImportPage {
                songs: final(self).songs,
                input: final(self).input,
                saved: false,
                ..*old(self)
            }),
    {
        self.input = String::new();
        self.songs = Vec::new();
        self.saved = false;
    }

    /// Authentication failed after a retry.
    pub fn authentication_failed_again(&mut self)
        ensures
            *final(self) == (ImportPage {
                notification: Some(SpotifyNotification::NotAuthenticated),
                failed_again: true,
                ..*old(self)
            }),
    {
        self.notification = Some(SpotifyNotification::NotAuthenticated);
        self.failed_again = true;
    }

    /// Authentication succeeded.
    pub fn authentication_success(&mut self)
        ensures
            *final(self) == (ImportPage {
                notification: Some(SpotifyNotification::Success),
                failed_again: false,
                ..*old(self)
            }),
    {
        self.notification = Some(SpotifyNotification::Success);
        self.failed_again = false;
    }

    /// Authentication failed: the notice says whether the credentials are
    /// missing or were refused.
    pub fn authentication_failed(&mut self)
        ensures
            *final(self) == (ImportPage {
                notification: Some(
                    if old(self).spotify_id is Some && old(self).spotify_client is Some {
                        SpotifyNotification::NotAuthenticated
                    } else {
                        SpotifyNotification::NoIdOrSecret
                    },
                ),
                ..*old(self)
            }),
    {
        if self.spotify_id.is_some() && self.spotify_client.is_some() {
            self.notification = Some(SpotifyNotification::NotAuthenticated);
        } else {
            self.notification = Some(SpotifyNotification::NoIdOrSecret);
        }
    }

    /// The notice was dismissed.
    pub fn clear_notification(&mut self)
        ensures
            *final(self) == (ImportPage { notification: None, ..*old(self) }),
    {
        self.notification = None;
    }

    /// The share-link box now holds `value`.
    pub fn text_input(&mut self, value: String)
        ensures
            *final(self) == (ImportPage { input: value, ..*old(self) }),
    {
        self.input = value;
    }

    /// The playlist's name and number of tracks are known.
    pub fn spotify_playlist_name(&mut self, name: String, size: usize)
        ensures
            *final(self) == (ImportPage { playlist_name: Some(name), playlist_size: Some(size), ..*old(self) }),
    {
        self.playlist_name = Some(name);
        self.playlist_size = Some(size);
    }

    /// The share link named no playlist.
    pub fn spotify_invalid_id(&mut self)
        ensures
            *final(self) == (ImportPage { notification: Some(SpotifyNotification::InvalidID), ..*old(self) }),
    {
        self.notification = Some(SpotifyNotification::InvalidID);
    }

    /// Whether the save button is offered: the playlist is not saved yet and
    /// every one of its tracks has arrived.
    pub fn can_save(&self) -> (r: bool)
        ensures
            r == (!self.saved && self.playlist_size == Some(self.songs.len())),
    {
        if self.saved {
            return false;
        }
        match self.playlist_size {
            Some(size) => size == self.songs.len(),
            None => false,
        }
    }

    /// Saving was asked for: the page counts as saved, and the playlist to
    /// create (with id zero until the database gives one) is returned when
    /// its name is known.
    pub fn save_playlist(&mut self) -> (r: Option<Playlist>)
        ensures
            *final(self) == (ImportPage { saved: true, ..*old(self) }),
            match r {
                Some(p) => p.id == 0 && opt_view(old(self).playlist_name) == Some(p.name@),
                None => old(self).playlist_name is None,
            },
    {
        self.saved = true;
        match &self.playlist_name {
            Some(name) => Some(Playlist { id: 0, name: name.clone() }),
            None => None,
        }
    }

    /// The statements that add every imported song, in order, to the
    /// playlist the database created.
    pub fn playlist_created(&self, playlist: &Playlist) -> (r: Vec<Statement>)
        ensures
            r.len() == self.songs.len(),
            forall|i: int|
                0 <= i < r.len() ==> statement_view(#[trigger] r@[i]) == (
                    INSERT_ENTRY,
                    seq![ParamView::Int(playlist.id), ParamView::Int(self.songs@[i].id)],
                ),
    {
        let mut r: Vec<Statement> = Vec::new();
        let mut i: usize = 0;
        while i < self.songs.len()
            invariant
                i <= self.songs.len(),
                r.len() == i,
                forall|k: int|
                    0 <= k < i ==> statement_view(#[trigger] r@[k]) == (
                        INSERT_ENTRY,
                        seq![ParamView::Int(playlist.id), ParamView::Int(self.songs@[k].id)],
                    ),
            decreases self.songs.len() - i,
        {
            r.push(DatabaseInterface::insert_playlist_entry(self.songs[i].id, playlist.id));
            i = i + 1;
        }
        r
    }

    /// The text of the current notice, if there is one.
    pub fn notification_text(&self) -> (r: Option<String>)
        ensures
            match self.notification {
                Some(n) => r is Some && r->0@ == notice_text(n, self.playlist_size),
                None => r is None,
            },
    {
        match self.notification {
            None => None,
            Some(n) => {
                let mut s = String::new();
                match n {
                    SpotifyNotification::NoIdOrSecret => push_str(&mut s, "No ID/SECRET"),
                    SpotifyNotification::NotAuthenticated => push_str(&mut s, "Not Authenticated"),
                    SpotifyNotification::InvalidID => push_str(&mut s, "Not Authenticated"),
                    SpotifyNotification::Finished => push_str(&mut s, "Finished"),
                    SpotifyNotification::Success => push_str(&mut s, "Successfully Authenticated"),
                    SpotifyNotification::Waiting(received) => {
                        push_str(&mut s, "Not ready: ");
                        push_decimal(&mut s, received as u64);
                        push_str(&mut s, " / ");
                        let size: usize = match self.playlist_size {
                            Some(v) => v,
                            None => 0,
                        };
                        push_decimal(&mut s, size as u64);
                        push_str(&mut s, " received.");
                    },
                }
                Some(s)
            },
        }
    }

    /// The colour of the current notice, if there is one.
    pub fn notification_colour(&self) -> (r: Option<NoticeColour>)
        ensures
            r == match self.notification {
                Some(n) => Some(notice_colour(n, self.failed_again)),
                None => None,
            },
    {
        match self.notification {
            None => None,
            Some(n) => Some(
                match n {
                    SpotifyNotification::NotAuthenticated => if self.failed_again {
                        NoticeColour::Red
                    } else {
                        NoticeColour::Yellow
                    },
                    SpotifyNotification::Waiting(_) => NoticeColour::Yellow,
                    SpotifyNotification::Finished => NoticeColour::Green,
                    SpotifyNotification::Success => NoticeColour::Green,
                    _ => NoticeColour::Red,
                },
            ),
        }
    }
}

} // verus!
