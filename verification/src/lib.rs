//! Core logic of the Resonate music player: the playback queue, the
//! download scheduler, the thumbnail registry, the database statements and
//! the reading of their rows, the state of the pages, and the text handling
//! (durations, identifiers, configuration files, share links, downloader
//! output) that the player relies on.

pub mod text;
pub mod number;
pub mod music;
pub mod player;
pub mod downloads;
pub mod thumbnail;
pub mod error;
pub mod spotify;
pub mod settings;
pub mod database;
pub mod playlists;
pub mod util;
pub mod media;
pub mod filemanager;
pub mod import_page;
pub mod search_page;
pub mod navigation;
pub mod secrets;
pub mod web;
pub mod playlist_page;
pub mod actions;
pub mod worker_pool;
