//! Game logic of an audio-first falling-block puzzle game: the board, pieces,
//! scoring, the tutorial boards, menus and the settings they cycle through.
pub mod i18n;
pub mod settings;
pub mod text;

pub mod logic;
pub mod play;
pub mod laws;
pub mod controls;
pub mod music;
pub mod announce;
pub mod random;
pub mod updater;
pub mod numfmt;
pub mod db;
pub mod screens;
