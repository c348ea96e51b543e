//! Laws of the game rules, stated in plain numbers and board facts: the fall
//! interval, the wall-kick data, T-spin detection, line-clear scoring and the
//! Laser.
use vstd::prelude::*;
use crate::logic::{
    blocked_corners, blocked_corners_upto, box_corner, column_height, column_height_from,
    corner_blocked, fall_speed, grid_of, item_used, kick_table, laser_column_upto, laser_grid,
    level_as_i32, lock_fits, lock_lines, lock_t_spin, locked, max_height_upto, t_spin, Board,
    GameState, ItemType, LockResult, Tetromino, TetrominoType, BOARD_HEIGHT, BOARD_WIDTH,
};
use crate::settings::Difficulty;

verus! {

/// The fall interval of a game at difficulty `d` and level `level` (1 or
/// more): 1000, 800 or 500 ms for Easy, Moderate and Difficult at level 1,
/// 100 ms less for each level above, and never below 100 ms. So one more
/// level is 100 ms faster until the 100 ms floor.
pub proof fn lemma_fall_interval(d: Difficulty, level: u32)
    requires
        1 <= level <= i32::MAX,
    ensures
        fall_speed(d, level) == {
            let start: int = match d {
                Difficulty::Easy => 1000,
                Difficulty::Moderate => 800,
                Difficulty::Difficult => 500,
            };
            let v = start - (level - 1) * 100;
            if v < 100 {
                100
            } else {
                v
            }
        },
        level < i32::MAX ==> fall_speed(d, (level + 1) as u32) == if fall_speed(d, level) - 100 < 100 {
            100
        } else {
            fall_speed(d, level) - 100
        },
{
    assert(level_as_i32(level) == level);
    if level < i32::MAX {
        assert(level_as_i32((level + 1) as u32) == level + 1);
    }
}

/// The offset data of the Super Rotation System for shape `t` in rotation
/// `r`, test `i`, with rows counted downwards: zero for the O piece and for
/// rotations 0 and 2 of J, L, S, T and Z, and the I piece's own table.
pub open spec fn srs_offset(t: TetrominoType, r: int, i: int) -> (int, int) {
    if t == TetrominoType::O {
        (0, 0)
    } else if t == TetrominoType::I {
        if r == 0 {
            seq![(0int, 0int), (-1, 0), (2, 0), (-1, 0), (2, 0)][i]
        } else if r == 1 {
            seq![(-1int, 0int), (0, 0), (0, 0), (0, -1), (0, 2)][i]
        } else if r == 2 {
            seq![(-1int, -1int), (1, -1), (-2, -1), (1, 0), (-2, 0)][i]
        } else {
            seq![(0int, -1int), (0, -1), (0, -1), (0, 1), (0, -2)][i]
        }
    } else {
        if r == 1 {
            seq![(0int, 0int), (1, 0), (1, 1), (0, -2), (1, -2)][i]
        } else if r == 3 {
            seq![(0int, 0int), (-1, 0), (-1, 1), (0, -2), (-1, -2)][i]
        } else {
            (0, 0)
        }
    }
}

/// The wall kicks follow the Super Rotation System: for a quarter turn from
/// rotation `s` to `e`, test `i` moves the piece by the start rotation's
/// offset minus the end rotation's, taken relative to the first test (so the
/// first test is always the turn in place). Turning back tries the same
/// moves reversed.
pub proof fn lemma_kicks_follow_srs(t: TetrominoType, s: int, e: int, i: int)
    requires
        0 <= s < 4,
        e == (s + 1) % 4 || e == (s + 3) % 4,
        0 <= i < 5,
    ensures
        kick_table(t, s, e).len() == 5,
        kick_table(t, s, e)[i] == (
            (srs_offset(t, s, i).0 - srs_offset(t, e, i).0) - (srs_offset(t, s, 0).0 - srs_offset(t, e, 0).0),
            (srs_offset(t, s, i).1 - srs_offset(t, e, i).1) - (srs_offset(t, s, 0).1 - srs_offset(t, e, 0).1),
        ),
        kick_table(t, e, s)[i] == (-kick_table(t, s, e)[i].0, -kick_table(t, s, e)[i].1),
{
}

/// A lock scores a T-spin exactly when the piece is a T, its last move was a
/// turn, and at least three of the four corners `(x, y)`, `(x + 2, y)`,
/// `(x, y + 2)` and `(x + 2, y + 2)` of its 3x3 box are blocked (by a wall,
/// the floor or a locked cell); with two or fewer it is no T-spin.
pub proof fn lemma_t_spin_corners(board: Board, p: Tetromino, spun: bool)
    ensures
        t_spin(board, p, spun) == (p.t_type == TetrominoType::T && spun && (if corner_blocked(board, p.x as int, p.y as int) {
            1int
        } else {
            0int
        }) + (if corner_blocked(board, p.x + 2, p.y as int) {
            1int
        } else {
            0int
        }) + (if corner_blocked(board, p.x as int, p.y + 2) {
            1int
        } else {
            0int
        }) + (if corner_blocked(board, p.x + 2, p.y + 2) {
            1int
        } else {
            0int
        }) >= 3),
{
    let x = p.x as int;
    let y = p.y as int;
    assert(box_corner(x, y, 0) == (x, y));
    assert(box_corner(x, y, 1) == (x + 2, y));
    assert(box_corner(x, y, 2) == (x, y + 2));
    assert(box_corner(x, y, 3) == (x + 2, y + 2));
    reveal_with_fuel(blocked_corners_upto, 5);
    assert(blocked_corners(board, x, y) == blocked_corners_upto(board, x, y, 4));
}

/// Scoring of a clear outside the Zone: a lock that completes `n` lines
/// (1 to 4) adds `points * level` to the score, where the level is the new
/// one (one more than a tenth of all lines cleared) and the points are the
/// base points (100, 300, 500, 800 for 1 to 4 lines; 800, 1200, 1600 for a
/// T-spin single, double, triple), half again for a back-to-back hard clear
/// (a Tetris or T-spin after another), plus 50 for each earlier clear of the
/// running combo. The combo grows by one. (The counters are taken to stay
/// within `u32`, as a lock requires.)
pub proof fn lemma_clear_scoring(pre: GameState, post: GameState, r: LockResult)
    requires
        lock_fits(pre),
        locked(pre, post, r),
        !pre.is_in_zone,
        1 <= lock_lines(pre) <= 4,
    ensures
        ({
            let n = lock_lines(pre);
            let ts = lock_t_spin(pre);
            let base: int = if n == 1 {
                if ts { 800 } else { 100 }
            } else if n == 2 {
                if ts { 1200 } else { 300 }
            } else if n == 3 {
                if ts { 1600 } else { 500 }
            } else {
                800
            };
            let b2b = (n == 4 || ts) && pre.b2b > 0;
            let points = (if b2b { base * 3 / 2 } else { base }) + 50 * pre.combo;
            &&& post.level == 1 + (pre.total_lines + n) / 10
            &&& post.total_lines == pre.total_lines + n
            &&& post.combo == pre.combo + 1
            &&& r.cleared_lines == n
            &&& r.b2b_bonus == b2b
            &&& post.score == pre.score + points * post.level
        }),
{
}

/// Column `c` is the first of the greatest height.
pub open spec fn first_tallest(board: Board, c: int) -> bool {
    &&& 0 <= c < BOARD_WIDTH
    &&& forall|x: int| 0 <= x < BOARD_WIDTH ==> column_height(board, x) <= column_height(board, c)
    &&& forall|x: int| 0 <= x < c ==> column_height(board, x) < column_height(board, c)
}

/// Column heights are never negative.
proof fn lemma_height_nonneg(board: Board, x: int, y: int)
    ensures
        column_height_from(board, x, y) >= 0,
    decreases BOARD_HEIGHT - y,
{
    if 0 <= y < BOARD_HEIGHT && !(board[y][x] is Some) {
        lemma_height_nonneg(board, x, y + 1);
    }
}

/// The Laser's column among the first `n` columns is the first of them of
/// the greatest height.
proof fn lemma_laser_column(board: Board, n: int)
    requires
        1 <= n <= BOARD_WIDTH,
    ensures
        0 <= laser_column_upto(board, n) < n,
        column_height(board, laser_column_upto(board, n)) == max_height_upto(board, n),
        forall|x: int| 0 <= x < n ==> column_height(board, x) <= max_height_upto(board, n),
        forall|x: int| 0 <= x < laser_column_upto(board, n) ==> column_height(board, x) < max_height_upto(board, n),
    decreases n,
{
    lemma_height_nonneg(board, n - 1, 0);
    if n > 1 {
        lemma_laser_column(board, n - 1);
    } else {
        assert(max_height_upto(board, 0) == 0);
        assert(laser_column_upto(board, 0) == 0);
    }
}

/// The Laser empties the first of the tallest columns: the column it clears
/// is at least as high as every other and higher than every column to its
/// left; every cell of it is empty afterwards and every other column keeps
/// its cells.
pub proof fn lemma_laser_clears_tallest(pre: GameState, post: GameState, r: Option<ItemType>)
    requires
        item_used(pre, post, r),
        pre.inventory == Some(ItemType::Laser),
    ensures
        r == Some(ItemType::Laser),
        exists|c: int|
            #[trigger] first_tallest(pre.board, c) && (forall|y: int| 0 <= y < BOARD_HEIGHT ==> post.board[y][c] is None)
                && (forall|y: int, x: int|
                0 <= y < BOARD_HEIGHT && 0 <= x < BOARD_WIDTH && x != c ==> post.board[y][x] == pre.board[y][x]),
{
    let c = laser_column_upto(pre.board, BOARD_WIDTH as int);
    lemma_laser_column(pre.board, BOARD_WIDTH as int);
    assert(first_tallest(pre.board, c));
    assert forall|y: int| 0 <= y < BOARD_HEIGHT implies post.board[y][c] is None by {
        assert(post.board[y][c] == laser_grid(grid_of(pre.board), c)[y][c]);
    }
    assert forall|y: int, x: int| 0 <= y < BOARD_HEIGHT && 0 <= x < BOARD_WIDTH && x != c implies post.board[y][x]
        == pre.board[y][x] by {
        assert(post.board[y][x] == laser_grid(grid_of(pre.board), c)[y][x]);
    }
}

} // verus!
