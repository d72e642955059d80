# nanowhisper

The logic of a desktop voice-transcription tool, written in Verus and
verified: settings and their defaults, the transcription service and key
that a request uses, the debounce of the recording shortcut, the tray and
window decisions, and a transcription history kept in SQLite.

## Layout

- `src/`: the verified library.
  - `text`: whitespace trimming, trailing-character removal, path joining
    in Unix and Windows style.
  - `settings`: `AppSettings`, its defaults, the fields a settings file
    gives, and the transcription base URL.
  - `transcription`: key checks, the key, language and service of a
    request, recording duration.
  - `shortcut`: the press filter of the global shortcut and the toggle.
  - `window`: tray menu and window-close decisions.
  - `history`: the SQLite history database (rusqlite, rusqlite_migration)
    and the clock (std, chrono).
  - `commands`: history operations with their errors as messages; the
    keyboard-simulator setup decision.
  - `paths`: the data directory `~/.nanowhisper/`.
- `app/`: plain Rust around the library: the JSON settings file (serde),
  the overlay position (floating point), simulated pasting (enigo), the
  process-wide shortcut state. The windowing shell, tray, clipboard and
  HTTP clients of the desktop application are not part of this
  repository, so no command layer over them is here.
- `tests/`: tests of the library.
