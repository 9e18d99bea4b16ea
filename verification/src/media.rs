//! Messages between the player and the system around it: media keys, the
//! tray, Discord presence, lyrics and Last.fm.
use vstd::prelude::*;
use crate::music::Song;
use crate::player::AudioTask;
use crate::text::push_str;

verus! {

/// A message from the media-key listener.
#[derive(Debug)]
pub enum MediaPacket {
    TogglePlayback,
    SkipForward,
    SkipBackward,
    CouldNotParse(String),
    Failure,
}

/// The packet a line printed by the media-key listener stands for: `0`,
/// `1` and `2` are the play/pause, next and previous keys.
pub open spec fn media_packet_spec(line: Seq<char>) -> MediaPacketKind {
    if line == "0"@ {
        MediaPacketKind::TogglePlayback
    } else if line == "1"@ {
        MediaPacketKind::SkipForward
    } else if line == "2"@ {
        MediaPacketKind::SkipBackward
    } else {
        MediaPacketKind::CouldNotParse(line)
    }
}

/// A media packet as plain values.
pub enum MediaPacketKind {
    TogglePlayback,
    SkipForward,
    SkipBackward,
    CouldNotParse(Seq<char>),
    Failure,
}

/// The plain values of a media packet.
pub open spec fn media_packet_view(p: MediaPacket) -> MediaPacketKind {
    match p {
        MediaPacket::TogglePlayback => MediaPacketKind::TogglePlayback,
        MediaPacket::SkipForward => MediaPacketKind::SkipForward,
        MediaPacket::SkipBackward => MediaPacketKind::SkipBackward,
        MediaPacket::CouldNotParse(s) => MediaPacketKind::CouldNotParse(s@),
        MediaPacket::Failure => MediaPacketKind::Failure,
    }
}

impl MediaPacket {
    /// The packet for one line printed by the media-key listener; `None`
    /// stands for a line that could not be read.
    pub fn from_line(line: Option<String>) -> (r: MediaPacket)
        ensures
            media_packet_view(r) == match line {
                Some(l) => media_packet_spec(l@),
                None => MediaPacketKind::Failure,
            },
    {
        match line {
            Some(l) => {
                if l == String::from_str("0") {
                    MediaPacket::TogglePlayback
                } else if l == String::from_str("1") {
                    MediaPacket::SkipForward
                } else if l == String::from_str("2") {
                    MediaPacket::SkipBackward
                } else {
                    MediaPacket::CouldNotParse(l)
                }
            },
            None => MediaPacket::Failure,
        }
    }

    /// The audio task a media key asks for; none for the other packets.
    pub fn audio_task(&self) -> (r: Option<AudioTask>)
        ensures
            r == match *self {
                MediaPacket::TogglePlayback => Some(AudioTask::TogglePlayback),
                MediaPacket::SkipForward => Some(AudioTask::SkipForward),
                MediaPacket::SkipBackward => Some(AudioTask::SkipBackward),
                _ => None::<AudioTask>,
            },
    {
        match self {
            MediaPacket::TogglePlayback => Some(AudioTask::TogglePlayback),
            MediaPacket::SkipForward => Some(AudioTask::SkipForward),
            MediaPacket::SkipBackward => Some(AudioTask::SkipBackward),
            _ => None,
        }
    }
}

/// A message from the tray icon.
#[derive(Debug, Clone, Copy, PartialEq, Eq, Structural)]
pub enum TrayMessage {
    OpenMain,
    Quit,
}

/// Why the Discord presence thread stopped.
#[derive(Debug, Clone, Copy, PartialEq, Eq, Structural)]
pub enum RPCError {
    ChannelDied,
    Failed,
}

/// A message to the Discord presence thread.
#[derive(Debug)]
pub enum RPCMessage {
    SetStatus(Song),
}

/// The status shown while a song plays.
pub open spec fn status_text_spec(title: Seq<char>, artist: Seq<char>) -> Seq<char> {
    "Listening to "@ + title + " by "@ + artist
}

impl RPCMessage {
    /// The status text this message sets.
    pub fn status_text(&self) -> (r: String)
        ensures
            match *self {
                RPCMessage::SetStatus(s) => r@ == status_text_spec(s.title@, s.artist@),
            },
    {
        match self {
            RPCMessage::SetStatus(song) => {
                let mut r = String::new();
                push_str(&mut r, "Listening to ");
                push_str(&mut r, song.title.as_str());
                push_str(&mut r, " by ");
                push_str(&mut r, song.artist.as_str());
                assert(r@ =~= status_text_spec(song.title@, song.artist@));
                r
            },
        }
    }
}

/// A message about lyrics.
#[derive(Debug)]
pub enum LyricMsg {
    SpawnCollector,
    RequestLyrics(Song),
    ReturnLyrics(String),
}

/// The credentials of a Last.fm account.
#[derive(Debug)]
pub struct FMAuth {
    pub key: Option<String>,
    pub secret: Option<String>,
    pub username: Option<String>,
    pub password: Option<String>,
}

impl FMAuth {
    /// Credentials from their four parts.
    pub fn new(
        key: Option<String>,
        secret: Option<String>,
        username: Option<String>,
        password: Option<String>,
    ) -> (r: FMAuth)
        ensures
            r == (FMAuth { key, secret, username, password }),
    {
        FMAuth { key, secret, username, password }
    }
}

/// A message to the scrobbling thread.
#[derive(Debug)]
pub enum FMMessage {
    SetNowPlaying(Song),
    SetScrobbling(Song),
}

} // verus!
