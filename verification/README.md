# Audio Tetris

A screen-reader-first falling-block game: every move, rotation, drop and
clear is heard as a sound and spoken aloud, with a nine-lesson audio tutorial,
a Zone mode, power-up items, save slots and high scores.

The game's rules live in a library written in Verus, whose contracts and
laws are proved; the program around it is ordinary Rust.

## Layout

- `src/` — the verified library:
  - `logic.rs`: pieces, board, moves, rotations with wall kicks, locking,
    line clears, scoring, the Zone, items, the 7-bag and the range checks
    that keep every coordinate and counter inside its integer type;
  - `play.rs`: the game clock (Zone clock, lock delay, gravity), the actions
    of a game in progress, and the game's laws;
  - `announce.rs`: which sounds play and what is said after each action,
    lock and Zone end;
  - `controls.rs`: key bindings, menu music, the screen-reader toggle key;
  - `screens/`: the screens, menu navigation and its laws, menu text, the
    in-game board text, the tutorial lessons and their practice boards;
  - `settings.rs`, `i18n.rs`, `updater.rs`, `db.rs`, `music.rs`, `numfmt.rs`,
    `text.rs`, `random.rs`: option cycles, languages and locale codes,
    version comparison and update decisions, save-slot time stamps, track
    stepping, number and text formatting, and the random draws.
- `app/` — the program: window and drawing (wxdragon), sound (rodio, lofty),
  speech (Tolk), the SQLite database (rusqlite), the settings file and saved
  games (serde), message catalogs (rust-i18n) and the update download.
- `tests/` — tests of the library.
