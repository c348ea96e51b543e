use audio_tetris::db::{day_timestamp, PlayerStats};
use audio_tetris::settings::{cycle_difficulty, Difficulty};
use audio_tetris::text::{compact_single_line, ellipsize, trim_str};

#[test]
fn compacting_collapses_whitespace() {
    assert_eq!(compact_single_line("  Hello \n  world\t!  "), "Hello world !");
    assert_eq!(compact_single_line(""), "");
    assert_eq!(compact_single_line("   "), "");
    assert_eq!(compact_single_line("one"), "one");
}

#[test]
fn ellipsizing_cuts_long_text() {
    assert_eq!(ellipsize("Radar sweep", 5), "Radar...");
    assert_eq!(ellipsize("Radar", 5), "Radar");
    assert_eq!(ellipsize("Zoné", 3), "Zon...");
}

#[test]
fn day_timestamps() {
    assert_eq!(day_timestamp(0), "Day 0 00:00 UTC");
    assert_eq!(day_timestamp(86400 * 20000 + 7 * 3600 + 5 * 60 + 59), "Day 20000 07:05 UTC");
    assert_eq!(day_timestamp(86399), "Day 0 23:59 UTC");
}

#[test]
fn stats_default_to_zero() {
    let s = PlayerStats::default();
    assert_eq!((s.total_games_played, s.total_lines_cleared, s.high_score), (0, 0, 0));
}

#[test]
fn difficulty_cycles_both_ways() {
    assert_eq!(cycle_difficulty(Difficulty::Easy, true), Difficulty::Moderate);
    assert_eq!(cycle_difficulty(Difficulty::Difficult, true), Difficulty::Easy);
    assert_eq!(cycle_difficulty(Difficulty::Easy, false), Difficulty::Difficult);
    assert_eq!(cycle_difficulty(cycle_difficulty(Difficulty::Moderate, true), false), Difficulty::Moderate);
}

#[test]
fn trimming_removes_unicode_whitespace_at_both_ends() {
    assert_eq!(trim_str("  a b \t\n"), "a b");
    assert_eq!(trim_str("\u{3000}x\u{00A0}"), "x");
    assert_eq!(trim_str(" \n "), "");
    assert_eq!(trim_str(""), "");
    assert_eq!(trim_str("plain"), "plain");
}
