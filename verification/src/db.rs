//! The records kept by the save and score database, and the time stamp it
//! writes beside them.
use vstd::prelude::*;
use crate::numfmt::{decimal, digit_char, push_decimal};
use crate::text::{push_char, push_str};

verus! {

/// Summary of a saved game slot.
#[derive(Clone, Debug)]
pub struct SaveSlotInfo {
    pub slot_id: usize,
    pub timestamp: String,
    pub score: u32,
    pub level: u32,
    pub lines: u32,
    pub difficulty: String,
}

/// One recorded final score.
#[derive(Clone, Debug)]
pub struct HighScoreEntry {
    pub id: i64,
    pub timestamp: String,
    pub score: u32,
    pub level: u32,
    pub lines: u32,
    pub difficulty: String,
}

/// Lifetime statistics over all finished games.
#[derive(Clone, Debug)]
pub struct PlayerStats {
    pub total_games_played: u32,
    pub total_lines_cleared: u32,
    pub high_score: u32,
}

impl Default for PlayerStats {
    /// No games played yet.
    fn default() -> (r: Self)
        ensures
            r.total_games_played == 0 && r.total_lines_cleared == 0 && r.high_score == 0,
    {
        PlayerStats { total_games_played: 0, total_lines_cleared: 0, high_score: 0 }
    }
}

/// `n` (below 100) in two digits, with a leading zero below 10 (`{:02}`).
pub open spec fn two_digits(n: nat) -> Seq<char> {
    if n < 10 {
        seq!['0', digit_char(n as int)]
    } else {
        decimal(n)
    }
}

/// The time stamp of a moment `secs` seconds after the Unix epoch: the day
/// number, then hours and minutes of that day in UTC, as in `Day 20000 07:05
/// UTC`.
pub open spec fn day_stamp(secs: nat) -> Seq<char> {
    seq!['D', 'a', 'y', ' '] + decimal(secs / 86400) + seq![' '] + two_digits((secs % 86400) / 3600)
        + seq![':'] + two_digits((secs % 3600) / 60) + seq![' ', 'U', 'T', 'C']
}

/// Appends `n` (below 100) in two digits.
fn push_two_digits(s: &mut String, n: u64)
    requires
        n < 100,
    ensures
        final(s)@ == old(s)@ + two_digits(n as nat),
{
    if n < 10 {
        push_char(s, '0');
    }
    push_decimal(s, n);
    proof {
        if n < 10 {
            assert(decimal(n as nat) == seq![digit_char(n as int)]);
        }
    }
    assert(final(s)@ =~= old(s)@ + two_digits(n as nat));
}

/// The time stamp stored with a save slot or a high score (see `day_stamp`).
pub fn day_timestamp(secs: u64) -> (r: String)
    ensures
        r@ == day_stamp(secs as nat),
{
    let days = secs / 86400;
    let hours = (secs % 86400) / 3600;
    let mins = (secs % 3600) / 60;
    let mut s = String::new();
    push_str(&mut s, "Day ");
    push_decimal(&mut s, days);
    push_char(&mut s, ' ');
    push_two_digits(&mut s, hours);
    push_char(&mut s, ':');
    push_two_digits(&mut s, mins);
    push_str(&mut s, " UTC");
    proof {
        reveal_strlit("Day ");
        reveal_strlit(" UTC");
    }
    assert(s@ =~= day_stamp(secs as nat));
    s
}

} // verus!
