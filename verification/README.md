# resonate

The core of the Resonate music player, verified with Verus.

`src/` holds the player's logic with its contracts and laws:

- `player` – the playback queue and every decision of the audio thread;
- `downloads` – which song downloads start, wait or are ignored;
- `thumbnail` – the registry that downloads each album thumbnail once;
- `database` – the SQL statements and the reading of rows into songs,
  playlists and secrets;
- `settings`, `secrets` – the configuration file and the stored credentials;
- `playlists`, `playlist_page`, `search_page`, `import_page`, `navigation` –
  the state of the pages and the moves between them;
- `actions` – adding a song to a playlist, the order in which a playlist
  joins the queue, and which search results ask for a thumbnail;
- `spotify`, `web` – share links, downloader addresses and output, the
  metadata pool and the steps that add a found song to the library;
- `worker_pool` – the metadata pool that runs up to four workers at once;
- `music`, `text`, `number`, `util`, `media`, `filemanager`, `error` – songs,
  text and number handling, fuzzy matching, messages and data directories.

`app/` is the process around it: the SQLite thread, audio output, the
media-key listener, Discord presence, the downloader runs and the thumbnail
images. `tests/` runs the library on concrete values.
