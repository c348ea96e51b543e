//! The leaderboard screen's layout.
use vstd::prelude::*;
use crate::db::HighScoreEntry;

verus! {

/// Number of selectable lines of the leaderboard: the statistics line, one
/// line per score (or one "no scores" line), and Back.
pub fn get_leaderboard_items_count(scores: &[HighScoreEntry]) -> (r: usize)
    requires
        scores@.len() + 2 <= usize::MAX,
    ensures
        r == if scores@.len() == 0 {
            3
        } else {
            scores@.len() + 2
        },
{
    if scores.len() == 0 {
        3
    } else {
        scores.len() + 2
    }
}

} // verus!
