//! What happens to a game in progress as time passes: the Zone clock, the
//! lock delay and gravity.
use vstd::prelude::*;
use crate::controls::InputAction;
use crate::logic::{
    filled_rows_desc, lemma_filled_rows_range, magnet_cell, clear_gain, clear_grid, clear_points, clear_scores, column_height, draw_from_bag, grid_of,
    is_full_bag, kept_rows, lemma_kept_rows_range, level_after, lock_lines, lock_t_spin,
    locked_board, max_height_upto, row_full, spawned, BOARD_HEIGHT, BOARD_WIDTH,
    at_row, blocks_fit_check, kicks_fit_check, lemma_landing_unique, lemma_lock_fits_fields,
    shift_fits_check, zone_multiplier, Tetromino, blocks_fit, dropped, end_zone_fits, fall_speed, held, item_used, kick_table, kicks_fit,
    kicked, landing_y, meter_charge, lock_fits, locked, rotation_ccw, rotation_cw, rotation_outcome, shift_fits, shifted,
    speed_fits, valid_position, zone_bonus, GameState, ItemType, LockResult, TetrominoType,
};

verus! {

/// Lock delay, in milliseconds, granted when a piece can fall no further.
pub const LOCK_DELAY_MS: i32 = 500;

/// Remaining lock delay, in milliseconds, at which the warning sounds.
pub const LOCK_WARNING_MS: i32 = 200;

/// What one clock tick did to the game.
pub struct TickReport {
    /// The Zone ran out during this tick, with this many lines cleared in it.
    pub zone_ended: Option<u32>,
    /// The lock delay crossed the warning threshold during this tick.
    pub lock_warning: bool,
    /// The lock delay ran out and the piece was locked, with this result.
    pub locked: Option<LockResult>,
}

/// The game after Zone mode ends: meter and Zone count emptied, bonus scored.
pub open spec fn zone_closed(g: GameState) -> GameState {
    GameState {
        is_in_zone: false,
        zone_lines_cleared: 0,
        zone_meter: 0,
        score: (g.score + zone_bonus(g.zone_lines_cleared as int, g.level as int)) as u32,
        ..g
    }
}

/// The game after its Zone clock has run for `dt` milliseconds: outside Zone
/// mode nothing changes; the Zone ends when its clock reaches zero.
pub open spec fn zone_clock(g: GameState, dt: int) -> GameState {
    if !g.is_in_zone {
        g
    } else {
        let t = GameState { zone_timer_ms: (g.zone_timer_ms - dt) as i32, ..g };
        if g.zone_timer_ms - dt <= 0 {
            zone_closed(t)
        } else {
            t
        }
    }
}

/// Whether the Zone runs out during a tick of `dt` milliseconds.
pub open spec fn zone_runs_out(g: GameState, dt: int) -> bool {
    g.is_in_zone && g.zone_timer_ms - dt <= 0
}

/// The game after its lock-delay clock has run for `dt` milliseconds.
pub open spec fn lock_clock(g: GameState, dt: int) -> GameState {
    GameState { lock_delay_timer_ms: (g.lock_delay_timer_ms - dt) as i32, ..g }
}

/// The game after gravity has run for `dt` milliseconds with no lock delay
/// pending: when the fall clock reaches the level's speed it restarts and the
/// piece falls one row, or, when it cannot, the lock delay starts.
pub open spec fn gravity(g: GameState, dt: int) -> GameState {
    let f = g.fall_timer_ms + dt;
    if f < fall_speed(g.difficulty, g.level) {
        GameState { fall_timer_ms: f as i32, ..g }
    } else if valid_position(g.board, shifted(g.current_piece, 0, 1)) {
        GameState {
            fall_timer_ms: 0,
            current_piece: shifted(g.current_piece, 0, 1),
            last_move_was_spin: false,
            ..g
        }
    } else {
        GameState {
            fall_timer_ms: 0,
            lock_delay_active: true,
            lock_delay_timer_ms: LOCK_DELAY_MS,
            moves_since_lock_delay: 0,
            ..g
        }
    }
}

/// The arithmetic of a tick of `dt` milliseconds stays in range, and the
/// piece moves and locks it may cause are well defined.
pub open spec fn tick_fits(g: GameState, dt: int) -> bool {
    let z = zone_clock(g, dt);
    &&& g.is_in_zone ==> i32::MIN <= g.zone_timer_ms - dt
    &&& zone_runs_out(g, dt) ==> end_zone_fits(GameState { zone_timer_ms: (g.zone_timer_ms - dt) as i32, ..g })
    &&& z.lock_delay_active ==> {
        &&& i32::MIN <= z.lock_delay_timer_ms - dt
        &&& z.lock_delay_timer_ms - dt <= 0 ==> lock_fits(lock_clock(z, dt))
    }
    &&& !z.lock_delay_active ==> {
        &&& z.fall_timer_ms + dt <= i32::MAX
        &&& speed_fits(z.difficulty, z.level)
        &&& shift_fits(z.current_piece, 0, 1)
    }
}

/// `post` and `r` are the game and report after a tick of `dt` milliseconds of
/// a game that is not over: the Zone clock runs first; then a pending lock
/// delay counts down (warning when it crosses 200 ms, locking the piece when
/// it runs out), or else gravity runs.
pub open spec fn ticked(pre: GameState, dt: int, post: GameState, r: TickReport) -> bool {
    let z = zone_clock(pre, dt);
    &&& r.zone_ended == if zone_runs_out(pre, dt) { Some(pre.zone_lines_cleared) } else { None }
    &&& if z.lock_delay_active {
        let l = lock_clock(z, dt);
        &&& r.lock_warning == (z.lock_delay_timer_ms > LOCK_WARNING_MS && l.lock_delay_timer_ms
            <= LOCK_WARNING_MS)
        &&& if l.lock_delay_timer_ms <= 0 {
            exists|res: LockResult| r.locked == Some(res) && #[trigger] locked(l, post, res)
        } else {
            r.locked is None && post == l
        }
    } else {
        &&& !r.lock_warning && r.locked is None
        &&& post == gravity(z, dt)
    }
}

impl GameState {
    /// Runs the game's clocks for `dt` milliseconds (one frame of the game
    /// timer). A game that is over does not change.
    pub fn tick(&mut self, dt: i32) -> (r: TickReport)
        requires
            dt >= 0,
            !old(self).is_game_over ==> tick_fits(*old(self), dt as int),
        ensures
            old(self).is_game_over ==> *final(self) == *old(self) && r.zone_ended is None
                && !r.lock_warning && r.locked is None,
            !old(self).is_game_over ==> ticked(*old(self), dt as int, *final(self), r),
    {
        let mut report = TickReport { zone_ended: None, lock_warning: false, locked: None };
        if self.is_game_over {
            return report;
        }
        if self.is_in_zone {
            self.zone_timer_ms = self.zone_timer_ms - dt;
            if self.zone_timer_ms <= 0 {
                let lines = self.end_zone();
                report.zone_ended = Some(lines);
            }
        }
        if self.lock_delay_active {
            let before = self.lock_delay_timer_ms;
            self.lock_delay_timer_ms = before - dt;
            report.lock_warning = before > LOCK_WARNING_MS && self.lock_delay_timer_ms <= LOCK_WARNING_MS;
            if self.lock_delay_timer_ms <= 0 {
                let res = self.lock_piece();
                report.locked = Some(res);
            }
        } else {
            self.fall_timer_ms = self.fall_timer_ms + dt;
            let speed = self.current_speed_ms();
            if self.fall_timer_ms >= speed {
                self.fall_timer_ms = 0;
                if !self.move_down() {
                    self.lock_delay_active = true;
                    self.lock_delay_timer_ms = LOCK_DELAY_MS;
                    self.moves_since_lock_delay = 0;
                }
            }
        }
        report
    }
}

/// What an action did to a game being played.
pub enum PlayEvent {
    /// Back: the game pauses (the state is unchanged).
    Pause,
    /// Radar: the stack is swept (the state is unchanged).
    Radar,
    /// Piece info was asked for (the state is unchanged).
    PieceInfo,
    /// A move left or right, and whether the piece moved.
    Shifted(bool),
    /// A rotation, and whether the piece turned.
    Rotated(bool),
    /// A soft drop, and whether the piece moved down.
    SoftDropped(bool),
    /// A hold request and its result (see `GameState::hold`).
    Held(Option<(bool, TetrominoType, TetrominoType)>),
    /// A hard drop and the lock it ended with.
    HardDropped(LockResult),
    /// A request for the Zone, and whether it started.
    Zone(bool),
    /// An item request, and the item used, if any.
    Item(Option<ItemType>),
    /// An action with no meaning during play.
    Nothing,
}

/// The game after a successful shift by (`dx`, `dy`).
pub open spec fn moved_by(g: GameState, dx: int, dy: int) -> GameState {
    GameState { current_piece: shifted(g.current_piece, dx, dy), last_move_was_spin: false, ..g }
}

/// The game after a shift attempt by (`dx`, 0).
pub open spec fn shift_attempt(g: GameState, dx: int) -> GameState {
    if valid_position(g.board, shifted(g.current_piece, dx, 0)) {
        moved_by(g, dx, 0)
    } else {
        g
    }
}

/// The game after an attempt to turn the piece to rotation `end_rot`.
pub open spec fn turn_attempt(g: GameState, end_rot: usize) -> GameState {
    match rotation_outcome(g.board, g.current_piece, end_rot) {
        Some(c) => GameState { current_piece: c, last_move_was_spin: true, ..g },
        None => g,
    }
}

/// The game after a soft drop: the piece moves down one row when it can;
/// once it rests on something the lock delay starts, unless it already runs.
pub open spec fn soft_drop_attempt(g: GameState) -> GameState {
    if valid_position(g.board, shifted(g.current_piece, 0, 1)) {
        let m = moved_by(g, 0, 1);
        if !valid_position(m.board, shifted(m.current_piece, 0, 1)) && !m.lock_delay_active {
            GameState {
                lock_delay_active: true,
                lock_delay_timer_ms: LOCK_DELAY_MS,
                moves_since_lock_delay: 0,
                ..m
            }
        } else {
            m
        }
    } else {
        g
    }
}

/// The moves, turns and drops an action may make are well defined on `g`.
pub open spec fn action_fits(g: GameState, a: InputAction) -> bool {
    match a {
        InputAction::Left => shift_fits(g.current_piece, -1, 0),
        InputAction::Right => shift_fits(g.current_piece, 1, 0),
        InputAction::Down => shift_fits(g.current_piece, 0, 1) && shift_fits(g.current_piece, 0, 2),
        InputAction::RotateRight => g.current_piece.rotation < usize::MAX && kicks_fit(
            g.current_piece,
            rotation_cw(g.current_piece.rotation),
            kick_table(
                g.current_piece.t_type,
                g.current_piece.rotation as int,
                rotation_cw(g.current_piece.rotation) as int,
            ),
        ),
        InputAction::RotateLeft => kicks_fit(
            g.current_piece,
            rotation_ccw(g.current_piece.rotation),
            kick_table(
                g.current_piece.t_type,
                g.current_piece.rotation as int,
                rotation_ccw(g.current_piece.rotation) as int,
            ),
        ),
        InputAction::HardDrop => g.current_piece.y < i32::MAX && blocks_fit(
            at_row(g.current_piece, (g.current_piece.y + 1) as i32),
        ) && lock_fits(dropped(g, landing_y(g.board, g.current_piece))),
        _ => true,
    }
}

/// `post` and `e` are the game and event after action `a` on game `pre`.
pub open spec fn played(pre: GameState, a: InputAction, post: GameState, e: PlayEvent) -> bool {
    match a {
        InputAction::Back => e is Pause && post == pre,
        InputAction::Radar => e is Radar && post == pre,
        InputAction::PieceInfo => e is PieceInfo && post == pre,
        InputAction::Left => e == PlayEvent::Shifted(
            valid_position(pre.board, shifted(pre.current_piece, -1, 0)),
        ) && post == shift_attempt(pre, -1),
        InputAction::Right => e == PlayEvent::Shifted(
            valid_position(pre.board, shifted(pre.current_piece, 1, 0)),
        ) && post == shift_attempt(pre, 1),
        InputAction::RotateRight => e == PlayEvent::Rotated(
            rotation_outcome(pre.board, pre.current_piece, rotation_cw(pre.current_piece.rotation)) is Some,
        ) && post == turn_attempt(pre, rotation_cw(pre.current_piece.rotation)),
        InputAction::RotateLeft => e == PlayEvent::Rotated(
            rotation_outcome(pre.board, pre.current_piece, rotation_ccw(pre.current_piece.rotation)) is Some,
        ) && post == turn_attempt(pre, rotation_ccw(pre.current_piece.rotation)),
        InputAction::Down => e == PlayEvent::SoftDropped(
            valid_position(pre.board, shifted(pre.current_piece, 0, 1)),
        ) && post == soft_drop_attempt(pre),
        InputAction::Hold => match e {
            PlayEvent::Held(r) => held(pre, post, r),
            _ => false,
        },
        InputAction::HardDrop => match e {
            PlayEvent::HardDropped(r) => locked(dropped(pre, landing_y(pre.board, pre.current_piece)), post, r),
            _ => false,
        },
        InputAction::Zone => e == PlayEvent::Zone(!pre.is_in_zone && pre.zone_meter >= 100) && post == if !pre.is_in_zone
            && pre.zone_meter >= 100 {
            GameState { is_in_zone: true, zone_timer_ms: 10000, ..pre }
        } else {
            pre
        },
        InputAction::UseItem => match e {
            PlayEvent::Item(r) => item_used(pre, post, r),
            _ => false,
        },
        _ => e is Nothing && post == pre,
    }
}

impl GameState {
    /// Carries out action `a` on the game being played and says what happened.
    pub fn play_action(&mut self, a: InputAction) -> (e: PlayEvent)
        requires
            action_fits(*old(self), a),
        ensures
            played(*old(self), a, *final(self), e),
    {
        match a {
            InputAction::Back => PlayEvent::Pause,
            InputAction::Radar => PlayEvent::Radar,
            InputAction::PieceInfo => PlayEvent::PieceInfo,
            InputAction::Left => PlayEvent::Shifted(self.move_left()),
            InputAction::Right => PlayEvent::Shifted(self.move_right()),
            InputAction::RotateRight => PlayEvent::Rotated(self.rotate_cw()),
            InputAction::RotateLeft => PlayEvent::Rotated(self.rotate_ccw()),
            InputAction::Down => {
                let ok = self.soft_drop();
                if ok {
                    if !self.can_move_down() && !self.lock_delay_active {
                        self.lock_delay_active = true;
                        self.lock_delay_timer_ms = LOCK_DELAY_MS;
                        self.moves_since_lock_delay = 0;
                    }
                }
                PlayEvent::SoftDropped(ok)
            },
            InputAction::Hold => PlayEvent::Held(self.hold()),
            InputAction::HardDrop => PlayEvent::HardDropped(self.hard_drop()),
            InputAction::Zone => PlayEvent::Zone(self.start_zone()),
            InputAction::UseItem => PlayEvent::Item(self.use_item()),
            _ => PlayEvent::Nothing,
        }
    }
}

/// Locking a piece never lowers the score, never ends a game that is over,
/// and keeps the Zone meter at 100 or below.
pub proof fn lemma_lock_keeps_score(pre: GameState, post: GameState, r: LockResult)
    requires
        lock_fits(pre),
        locked(pre, post, r),
    ensures
        post.score >= pre.score,
        pre.is_game_over ==> post.is_game_over,
        pre.zone_meter <= 100 ==> post.zone_meter <= 100,
{
    let n = lock_lines(pre);
    let ts = lock_t_spin(pre);
    if clear_scores(pre, n) {
        let p = clear_points(pre, n, ts);
        let l = level_after(pre, n);
        assert(p >= 0);
        assert(l >= 1);
        assert(p * l >= 0) by (nonlinear_arith)
            requires
                p >= 0,
                l >= 1,
        ;
        assert(clear_gain(pre, n, ts) >= 0);
    }
}

/// The Zone meter outside the Zone: a lock that clears no line leaves it as
/// it was; a clear of 1, 2, 3 or 4 lines adds 10, 20, 30 or 50 (20 more for a
/// T-spin), up to 100; it never passes 100, and the lock reports the meter
/// full exactly when this lock brought it to 100.
pub proof fn lemma_zone_meter(pre: GameState, post: GameState, r: LockResult)
    requires
        !pre.is_in_zone,
        pre.zone_meter <= 100,
        locked(pre, post, r),
    ensures
        post.zone_meter <= 100,
        lock_lines(pre) == 0 ==> post.zone_meter == pre.zone_meter,
        lock_lines(pre) > 0 ==> post.zone_meter == if pre.zone_meter + meter_charge(lock_lines(pre), lock_t_spin(pre))
            < 100 {
            pre.zone_meter + meter_charge(lock_lines(pre), lock_t_spin(pre))
        } else {
            100
        },
        meter_charge(1, false) == 10 && meter_charge(2, false) == 20 && meter_charge(3, false) == 30
            && meter_charge(4, false) == 50,
        forall|n: int| 1 <= n <= 4 ==> #[trigger] meter_charge(n, true) == meter_charge(n, false) + 20,
        r.zone_meter_full == (post.zone_meter == 100 && pre.zone_meter < 100),
{
}

/// The rows kept by a clear are rows that were not full.
proof fn lemma_kept_rows_not_full(g: Seq<Seq<Option<TetrominoType>>>, u: int)
    requires
        0 <= u <= BOARD_HEIGHT,
    ensures
        forall|i: int| 0 <= i < kept_rows(g, u).len() ==> !row_full(g, #[trigger] kept_rows(g, u)[i]),
    decreases BOARD_HEIGHT - u,
{
    if u < BOARD_HEIGHT {
        lemma_kept_rows_not_full(g, u + 1);
        if row_full(g, u) {
            assert(kept_rows(g, u) == kept_rows(g, u + 1));
        } else {
            assert(kept_rows(g, u) == seq![u] + kept_rows(g, u + 1));
            assert forall|i: int| 0 <= i < kept_rows(g, u).len() implies !row_full(g, #[trigger] kept_rows(g, u)[i]) by {
                if i > 0 {
                    assert(kept_rows(g, u)[i] == kept_rows(g, u + 1)[i - 1]);
                }
            }
        }
    }
}

/// After a piece locks, no row of the board is full: every full row is
/// cleared.
pub proof fn lemma_lock_leaves_no_full_row(pre: GameState, post: GameState, r: LockResult)
    requires
        locked(pre, post, r),
    ensures
        forall|y: int| 0 <= y < BOARD_HEIGHT ==> !row_full(grid_of(post.board), y),
{
    let pb = locked_board(pre);
    let kept = kept_rows(pb, 0);
    lemma_kept_rows_range(pb, 0);
    lemma_kept_rows_not_full(pb, 0);
    let c = BOARD_HEIGHT - kept.len();
    assert forall|y: int| 0 <= y < BOARD_HEIGHT implies !row_full(grid_of(post.board), y) by {
        let g = grid_of(post.board);
        if y < c {
            assert(post.board[y][0] == clear_grid(pb, pb)[y][0]);
            assert(g[y][0] is None);
        } else {
            let k = kept[y - c];
            assert(!row_full(pb, k));
            let x = choose|x: int| 0 <= x < BOARD_WIDTH && !(pb[k][x] is Some);
            assert(post.board[y][x] == clear_grid(pb, pb)[y][x]);
            assert(g[y][x] is None);
        }
    }
}

/// One hold per piece: right after a hold, another hold is refused and
/// changes nothing.
pub proof fn lemma_one_hold_per_piece(
    g0: GameState,
    g1: GameState,
    r1: Option<(bool, TetrominoType, TetrominoType)>,
    g2: GameState,
    r2: Option<(bool, TetrominoType, TetrominoType)>,
)
    requires
        held(g0, g1, r1),
        held(g1, g2, r2),
    ensures
        r2 is None,
        g2 == g1,
{
}

/// A move to the left followed by a move to the right puts the piece back
/// where it was, when the move left succeeded from a valid position that was
/// not reached by a rotation.
pub proof fn lemma_move_back(g: GameState)
    requires
        valid_position(g.board, g.current_piece),
        !g.last_move_was_spin,
        shift_fits(g.current_piece, -1, 0),
        valid_position(g.board, shifted(g.current_piece, -1, 0)),
    ensures
        shift_attempt(shift_attempt(g, -1), 1) == g,
{
    let m = shift_attempt(g, -1);
    assert(shifted(m.current_piece, 1, 0) == g.current_piece);
}

/// A counter-clockwise turn undoes a clockwise turn that needed no kick: when
/// the piece, turned in place, fits, turning it clockwise and then
/// counter-clockwise brings it back to where it was, with the same rotation;
/// only the record that the last move was a turn remains.
pub proof fn lemma_turn_back(g: GameState)
    requires
        g.current_piece.rotation < 4,
        valid_position(g.board, g.current_piece),
        valid_position(g.board, kicked(g.current_piece, rotation_cw(g.current_piece.rotation), (0, 0))),
    ensures
        turn_attempt(g, rotation_cw(g.current_piece.rotation)).current_piece == kicked(
            g.current_piece,
            rotation_cw(g.current_piece.rotation),
            (0, 0),
        ),
        turn_attempt(
            turn_attempt(g, rotation_cw(g.current_piece.rotation)),
            rotation_ccw(rotation_cw(g.current_piece.rotation)),
        ) == (GameState { last_move_was_spin: true, ..g }),
{
    let p0 = g.current_piece;
    let e = rotation_cw(p0.rotation);
    let t1 = kick_table(p0.t_type, p0.rotation as int, e as int);
    assert(t1[0] == (0int, 0int));
    assert(rotation_outcome(g.board, p0, e) == Some(kicked(p0, e, (0, 0))));
    let g1 = turn_attempt(g, e);
    let p1 = g1.current_piece;
    assert(rotation_ccw(e) == p0.rotation);
    let t2 = kick_table(p1.t_type, p1.rotation as int, p0.rotation as int);
    assert(t2[0] == (0int, 0int));
    assert(kicked(p1, p0.rotation, (0, 0)) == p0);
    assert(rotation_outcome(g1.board, p1, p0.rotation) == Some(p0));
}

/// Drawing from the bag never repeats a shape before the bag is used up: if
/// the bag holds distinct shapes, so does the bag after a draw, and it no
/// longer holds the shape drawn.
pub proof fn lemma_bag_stays_distinct(before: Seq<TetrominoType>, after: Seq<TetrominoType>, t: TetrominoType)
    requires
        before.no_duplicates(),
        draw_from_bag(before, after, t),
    ensures
        after.no_duplicates(),
        !after.contains(t),
{
    if before.len() > 0 {
        assert forall|i: int, j: int| 0 <= i < j < after.len() implies after[i] != after[j] by {
            assert(after[i] == before[i + 1]);
            assert(after[j] == before[j + 1]);
        }
        if after.contains(t) {
            let i = choose|i: int| 0 <= i < after.len() && after[i] == t;
            assert(before[i + 1] == before[0]);
        }
    } else {
        let full = seq![t] + after;
        assert(is_full_bag(full));
        all_shapes_distinct();
        full.lemma_multiset_has_no_duplicates_conv();
        assert forall|i: int, j: int| 0 <= i < j < after.len() implies after[i] != after[j] by {
            assert(after[i] == full[i + 1]);
            assert(after[j] == full[j + 1]);
        }
        if after.contains(t) {
            let i = choose|i: int| 0 <= i < after.len() && after[i] == t;
            assert(full[i + 1] == full[0]);
        }
    }
}

/// Each shape occurs once among the seven.
proof fn all_shapes_distinct()
    ensures
        forall|t: TetrominoType| #[trigger] crate::logic::all_shapes().to_multiset().count(t) <= 1,
{
    let s = crate::logic::all_shapes();
    assert(s.no_duplicates());
    s.lemma_multiset_has_no_duplicates();
}

/// The tallest column reported is as tall as every column, and is the height
/// of one of them.
pub proof fn lemma_tallest_column(board: crate::logic::Board, n: int)
    requires
        0 < n <= BOARD_WIDTH,
    ensures
        forall|x: int| 0 <= x < n ==> column_height(board, x) <= #[trigger] max_height_upto(board, n),
        exists|x: int| 0 <= x < n && column_height(board, x) == max_height_upto(board, n),
    decreases n,
{
    if n > 1 {
        lemma_tallest_column(board, n - 1);
        let w = choose|x: int| 0 <= x < n - 1 && column_height(board, x) == max_height_upto(board, n - 1);
        if column_height(board, n - 1) > max_height_upto(board, n - 1) {
            assert(column_height(board, n - 1) == max_height_upto(board, n));
        } else {
            assert(column_height(board, w) == max_height_upto(board, n));
        }
    } else {
        lemma_height_from_nonneg(board, 0, 0);
        reveal_with_fuel(max_height_upto, 2);
        assert(column_height(board, 0) == max_height_upto(board, 1));
    }
}

/// Stack heights are never negative.
proof fn lemma_height_from_nonneg(board: crate::logic::Board, x: int, y: int)
    ensures
        crate::logic::column_height_from(board, x, y) >= 0,
    decreases BOARD_HEIGHT - y,
{
    if 0 <= y < BOARD_HEIGHT {
        lemma_height_from_nonneg(board, x, y + 1);
    }
}

/// The rows listed as filled in a column are filled.
proof fn lemma_filled_rows_filled(b: crate::logic::Board, x: int, n: int)
    requires
        n <= BOARD_HEIGHT,
    ensures
        forall|j: int| 0 <= j < filled_rows_desc(b, x, n).len() ==> b[#[trigger] filled_rows_desc(b, x, n)[j]][x] is Some,
    decreases n,
{
    if n > 0 {
        lemma_filled_rows_filled(b, x, n - 1);
        let f = filled_rows_desc(b, x, n);
        let g = filled_rows_desc(b, x, n - 1);
        if b[n - 1][x] is Some {
            assert forall|j: int| 0 <= j < f.len() implies b[#[trigger] f[j]][x] is Some by {
                if j > 0 {
                    assert(f[j] == g[j - 1]);
                }
            }
        }
    }
}

/// The Magnet settles every column: after it, the blocks of each column sit
/// at the bottom with no gap, as many as the column held before.
pub proof fn lemma_magnet_settles(pre: GameState, post: GameState, r: Option<ItemType>)
    requires
        pre.inventory == Some(ItemType::Magnet),
        item_used(pre, post, r),
    ensures
        forall|y: int, x: int|
            0 <= y < BOARD_HEIGHT && 0 <= x < BOARD_WIDTH ==> ((#[trigger] post.board[y][x]) is Some <==> y
                >= BOARD_HEIGHT - filled_rows_desc(pre.board, x, BOARD_HEIGHT as int).len()),
{
    assert forall|y: int, x: int|
        0 <= y < BOARD_HEIGHT && 0 <= x < BOARD_WIDTH implies ((#[trigger] post.board[y][x]) is Some <==> y
            >= BOARD_HEIGHT - filled_rows_desc(pre.board, x, BOARD_HEIGHT as int).len()) by {
        let f = filled_rows_desc(pre.board, x, BOARD_HEIGHT as int);
        lemma_filled_rows_range(pre.board, x, BOARD_HEIGHT as int);
        lemma_filled_rows_filled(pre.board, x, BOARD_HEIGHT as int);
        assert(post.board[y][x] == magnet_cell(pre.board, x, y));
        if y >= BOARD_HEIGHT - f.len() {
            assert(pre.board[f[BOARD_HEIGHT - 1 - y]][x] is Some);
        }
    }
}

impl GameState {
    /// Whether action `a` keeps every coordinate and counter it touches within
    /// its integer type (see `action_fits`).
    pub fn action_fits_check(&self, a: InputAction) -> (r: bool)
        ensures
            r == action_fits(*self, a),
    {
        let p = self.current_piece;
        match a {
            InputAction::Left => shift_fits_check(&p, -1, 0),
            InputAction::Right => shift_fits_check(&p, 1, 0),
            InputAction::Down => shift_fits_check(&p, 0, 1) && shift_fits_check(&p, 0, 2),
            InputAction::RotateRight => {
                if p.rotation == usize::MAX {
                    return false;
                }
                kicks_fit_check(&p, (p.rotation + 1) % 4)
            },
            InputAction::RotateLeft => {
                let end = if p.rotation == 0 {
                    3
                } else {
                    p.rotation - 1
                };
                kicks_fit_check(&p, end)
            },
            InputAction::HardDrop => {
                if p.y == i32::MAX {
                    return false;
                }
                let below = Tetromino { y: p.y + 1, ..p };
                assert(below == at_row(p, (p.y + 1) as i32));
                if !blocks_fit_check(&below) {
                    return false;
                }
                let gy = self.get_ghost_y();
                proof {
                    lemma_landing_unique(self.board, p, gy, landing_y(self.board, p));
                }
                self.lock_fits_with(Tetromino { y: gy, ..p }, self.is_in_zone, self.zone_lines_cleared, self.score, self.zone_meter)
            },
            _ => true,
        }
    }

    /// Whether locking `piece` in place of the current one, with the Zone
    /// flag, Zone count, score and meter given, stays within range.
    fn lock_fits_with(&self, piece: Tetromino, in_zone: bool, zone_lines: u32, score: u32, meter: u32) -> (r: bool)
        ensures
            r == lock_fits(
                GameState {
                    current_piece: piece,
                    is_in_zone: in_zone,
                    zone_lines_cleared: zone_lines,
                    score,
                    zone_meter: meter,
                    ..*self
                },
            ),
    {
        let h = GameState {
            board: self.board,
            item_board: self.item_board,
            current_piece: piece,
            score,
            level: self.level,
            total_lines: self.total_lines,
            is_game_over: false,
            difficulty: self.difficulty,
            hold_piece: None,
            has_held: false,
            bag: Vec::new(),
            b2b: self.b2b,
            combo: self.combo,
            last_move_was_spin: self.last_move_was_spin,
            lock_delay_active: false,
            lock_delay_timer_ms: 0,
            fall_timer_ms: 0,
            moves_since_lock_delay: 0,
            is_in_zone: in_zone,
            zone_meter: meter,
            zone_lines_cleared: zone_lines,
            zone_timer_ms: 0,
            inventory: None,
            item_spawned: None,
            item_acquired: None,
        };
        proof {
            lemma_lock_fits_fields(
                h,
                GameState {
                    current_piece: piece,
                    is_in_zone: in_zone,
                    zone_lines_cleared: zone_lines,
                    score,
                    zone_meter: meter,
                    ..*self
                },
            );
        }
        h.lock_fits_check()
    }

    /// Whether a tick of `dt` milliseconds keeps every clock and counter
    /// within its integer type (see `tick_fits`).
    pub fn tick_fits_check(&self, dt: i32) -> (r: bool)
        requires
            dt >= 0,
        ensures
            r == tick_fits(*self, dt as int),
    {
        let mut in_zone = self.is_in_zone;
        let mut zone_lines = self.zone_lines_cleared;
        let mut score = self.score;
        let mut meter = self.zone_meter;
        if self.is_in_zone {
            let t = (self.zone_timer_ms as i64) - (dt as i64);
            if t < -2147483648 {
                return false;
            }
            if t <= 0 {
                let l = self.zone_lines_cleared as u128;
                if l > 0 {
                    let m: u128 = if l >= 8 {
                        3
                    } else if l >= 4 {
                        2
                    } else {
                        1
                    };
                    assert(m == zone_multiplier(l as int));
                    proof {
                        assert(100 * l <= 100 * 4294967295) by (nonlinear_arith)
                            requires
                                l <= 4294967295,
                        ;
                        assert(100 * l * l <= 100 * 4294967295 * 4294967295) by (nonlinear_arith)
                            requires
                                l <= 4294967295,
                        ;
                        assert(100 * l * l * m <= 100 * 4294967295 * 4294967295 * 3) by (nonlinear_arith)
                            requires
                                l <= 4294967295,
                                m <= 3,
                        ;
                    }
                    let f = 100 * l * l * m;
                    if f > 4294967295 {
                        return false;
                    }
                    proof {
                        assert(f * (self.level as u128) <= 4294967295 * 4294967295) by (nonlinear_arith)
                            requires
                                f <= 4294967295,
                                self.level <= 4294967295,
                        ;
                    }
                    let bonus = f * (self.level as u128);
                    assert(bonus == zone_bonus(l as int, self.level as int));
                    if (self.score as u128) + bonus > 4294967295 {
                        return false;
                    }
                    score = (self.score as u128 + bonus) as u32;
                } else {
                    assert(zone_bonus(0, self.level as int) == 0) by (nonlinear_arith);
                }
                in_zone = false;
                zone_lines = 0;
                meter = 0;
            }
        }
        let ghost z = zone_clock(*self, dt as int);
        assert(z.is_in_zone == in_zone && z.zone_lines_cleared == zone_lines && z.score == score && z.zone_meter == meter);
        if self.lock_delay_active {
            let t = (self.lock_delay_timer_ms as i64) - (dt as i64);
            if t < -2147483648 {
                return false;
            }
            if t <= 0 {
                let ok = self.lock_fits_with(self.current_piece, in_zone, zone_lines, score, meter);
                proof {
                    lemma_lock_fits_fields(
                        lock_clock(z, dt as int),
                        GameState {
                            current_piece: self.current_piece,
                            is_in_zone: in_zone,
                            zone_lines_cleared: zone_lines,
                            score,
                            zone_meter: meter,
                            ..*self
                        },
                    );
                }
                return ok;
            }
            true
        } else {
            if (self.fall_timer_ms as i64) + (dt as i64) > 2147483647 {
                return false;
            }
            let lvl = self.level as i64;
            let level = if lvl <= 2147483647 {
                lvl
            } else {
                lvl - 4294967296
            };
            let step = (level - 1) * 100;
            if step < -2147483648 || step > 2147483647 {
                return false;
            }
            let base: i64 = match self.difficulty {
                crate::settings::Difficulty::Easy => 1000,
                crate::settings::Difficulty::Moderate => 800,
                crate::settings::Difficulty::Difficult => 500,
            };
            if base - step > 2147483647 {
                return false;
            }
            shift_fits_check(&self.current_piece, 0, 1)
        }
    }
}

/// While the Zone runs, a lock scores nothing: the score, level and total
/// lines stay as they were, and the completed lines are counted toward the
/// Zone instead (they still leave the board).
pub proof fn lemma_zone_defers_scoring(pre: GameState, post: GameState, r: LockResult)
    requires
        pre.is_in_zone,
        lock_fits(pre),
        locked(pre, post, r),
    ensures
        post.score == pre.score,
        post.level == pre.level,
        post.total_lines == pre.total_lines,
        post.zone_lines_cleared == pre.zone_lines_cleared + lock_lines(pre),
        r.cleared_lines == 0,
        r.zone_lines_cleared_this_turn == lock_lines(pre),
{
    lemma_kept_rows_range(locked_board(pre), 0);
}

} // verus!
