# groovebox

A terminal music player for YouTube audio: it searches with `yt-dlp`, plays
through `mpv`, and draws a ratatui interface with a spectrum equalizer.

The decisions of the player are a library verified with Verus; the terminal,
the processes, the database and the audio capture are a thin program around it.

## Layout

- `src/` — the verified library.
  - `events.rs` — what each key press does to the state, per focus and popup.
  - `queue.rs` — next/previous track, repeat and shuffle, what happens when a
    track ends, volume, toasts, search results and previews.
  - `chapters.rs` — timestamp chapters parsed from a video description, and
    the chapter playing at a position.
  - `ytdlp.rs` — tracks from `yt-dlp` records, the best thumbnail, the search
    argument, the audio URL, and the version check.
  - `player.rs` — `mpv` events and property changes applied to the playback state.
  - `setup.rs` — which tools are missing and the install command for a package manager.
  - `view.rs` — layout arithmetic and labels that the screen shows.
  - `sql.rs` — the SQL text of the track queries.
  - `state.rs`, `models.rs`, `theme.rs`, `thumbnail.rs`, `audio.rs`, `text.rs`
    — the state, the data, the theme cycle, cache paths, capture buffers and
    character-level helpers.
  - `laws.rs` — properties that span several operations, proved.
- `tests/` — tests of the library on concrete values.
- `app/` — `main`, the event loop, terminal drawing, `mpv` and `yt-dlp`
  processes, SQLite storage and the audio capture with its FFT.
