//! The lessons of the tutorial and the practice board each one starts with.
use vstd::prelude::*;
use crate::controls::InputAction;
use crate::logic::{
    dropped, is_full_bag, landing_y, locked, LockResult, lemma_valid_on_board, max_block_x, rotation_ccw, rotation_cw, rotation_outcome, shifted, spawned,
    valid_position, Board, GameState, ItemType, Tetromino, TetrominoType, BOARD_HEIGHT,
    BOARD_WIDTH,
};
use crate::play::{action_fits, moved_by, shift_attempt, turn_attempt};
use crate::screens::AppScreen;
use crate::settings::Difficulty;

verus! {

/// The nine lessons, in order.
#[derive(Clone, Copy, Debug, PartialEq, Eq, Structural)]
pub enum TutorialStage {
    LateralMovement,
    VerticalPitch,
    RotationInspection,
    HoldSlot,
    LineClears,
    RadarSweep,
    ZoneMode,
    PowerUpItems,
    Graduation,
}

/// Lesson number (1 to 9) of a stage.
pub open spec fn stage_number(s: TutorialStage) -> int {
    match s {
        TutorialStage::LateralMovement => 1,
        TutorialStage::VerticalPitch => 2,
        TutorialStage::RotationInspection => 3,
        TutorialStage::HoldSlot => 4,
        TutorialStage::LineClears => 5,
        TutorialStage::RadarSweep => 6,
        TutorialStage::ZoneMode => 7,
        TutorialStage::PowerUpItems => 8,
        TutorialStage::Graduation => 9,
    }
}

/// The stage of a lesson number; anything other than 1 to 8 is graduation.
pub open spec fn stage_of(n: int) -> TutorialStage {
    if n == 1 {
        TutorialStage::LateralMovement
    } else if n == 2 {
        TutorialStage::VerticalPitch
    } else if n == 3 {
        TutorialStage::RotationInspection
    } else if n == 4 {
        TutorialStage::HoldSlot
    } else if n == 5 {
        TutorialStage::LineClears
    } else if n == 6 {
        TutorialStage::RadarSweep
    } else if n == 7 {
        TutorialStage::ZoneMode
    } else if n == 8 {
        TutorialStage::PowerUpItems
    } else {
        TutorialStage::Graduation
    }
}

impl TutorialStage {
    pub fn from_usize(val: usize) -> (r: Self)
        ensures
            r == stage_of(val as int),
    {
        match val {
            1 => TutorialStage::LateralMovement,
            2 => TutorialStage::VerticalPitch,
            3 => TutorialStage::RotationInspection,
            4 => TutorialStage::HoldSlot,
            5 => TutorialStage::LineClears,
            6 => TutorialStage::RadarSweep,
            7 => TutorialStage::ZoneMode,
            8 => TutorialStage::PowerUpItems,
            _ => TutorialStage::Graduation,
        }
    }

    pub fn as_usize(&self) -> (r: usize)
        ensures
            r == stage_number(*self),
    {
        match self {
            TutorialStage::LateralMovement => 1,
            TutorialStage::VerticalPitch => 2,
            TutorialStage::RotationInspection => 3,
            TutorialStage::HoldSlot => 4,
            TutorialStage::LineClears => 5,
            TutorialStage::RadarSweep => 6,
            TutorialStage::ZoneMode => 7,
            TutorialStage::PowerUpItems => 8,
            TutorialStage::Graduation => 9,
        }
    }
}

/// Lesson numbers 1 to 9 and stages correspond one to one.
pub proof fn lemma_stage_numbers(n: int, s: TutorialStage)
    ensures
        1 <= n <= 9 ==> stage_number(stage_of(n)) == n,
        stage_of(stage_number(s)) == s,
        1 <= stage_number(s) <= 9,
{
}

/// Progress through the tutorial.
#[derive(Clone, Debug)]
pub struct TutorialState {
    pub stage: usize,
    pub sub_step: usize,
    pub reached_left: bool,
    pub reached_right: bool,
    pub soft_drops: usize,
    pub rotated_cw: bool,
    pub rotated_ccw: bool,
    pub inspected: bool,
    pub held_first: bool,
    pub swapped_back: bool,
    pub tried_denied: bool,
    pub radar_scanned: bool,
    pub zone_entered: bool,
    pub item_step: usize,
    pub game_state: GameState,
}

/// Stack heights of the radar lesson, column by column.
pub open spec fn radar_height(x: int) -> int {
    if x == 0 {
        2
    } else if x == 1 {
        5
    } else if x == 2 {
        1
    } else if x == 3 {
        7
    } else if x == 4 {
        3
    } else if x == 5 {
        0
    } else if x == 6 {
        6
    } else if x == 7 {
        4
    } else if x == 8 {
        8
    } else {
        2
    }
}

/// The locked cells a lesson starts with: a bottom row open in column 5
/// (lines, part 1), four rows open in column 10 (lines, part 2), stacks of
/// varied height (radar), two rows open in column 5 (Zone), scattered
/// pairs (items), nothing otherwise.
pub open spec fn tutorial_cell(stage: usize, sub_step: usize, x: int, y: int) -> Option<TetrominoType> {
    if stage == 5 && sub_step == 0 {
        if y == 19 && x != 4 {
            Some(TetrominoType::J)
        } else {
            None
        }
    } else if stage == 5 {
        if 16 <= y && x < 9 {
            Some(TetrominoType::J)
        } else {
            None
        }
    } else if stage == 6 {
        if y >= BOARD_HEIGHT - radar_height(x) {
            Some(TetrominoType::T)
        } else {
            None
        }
    } else if stage == 7 {
        if (y == 18 || y == 19) && x != 4 {
            Some(TetrominoType::L)
        } else {
            None
        }
    } else if stage == 8 {
        if y == 17 && (x == 2 || x == 3) {
            Some(TetrominoType::S)
        } else if y == 16 && (x == 6 || x == 7) {
            Some(TetrominoType::Z)
        } else {
            None
        }
    } else {
        None
    }
}

/// The piece a lesson starts with, when the lesson chooses it.
pub open spec fn tutorial_piece(stage: usize, sub_step: usize) -> Option<Tetromino> {
    if stage == 1 {
        Some(Tetromino { t_type: TetrominoType::O, x: 4, y: 0, rotation: 0, item: None })
    } else if stage == 2 {
        Some(Tetromino { t_type: TetrominoType::I, x: 3, y: 0, rotation: 0, item: None })
    } else if stage == 3 {
        Some(Tetromino { t_type: TetrominoType::T, x: 3, y: 2, rotation: 0, item: None })
    } else if stage == 4 {
        Some(Tetromino { t_type: TetrominoType::S, x: 3, y: 0, rotation: 0, item: None })
    } else if stage == 5 && sub_step == 0 {
        Some(Tetromino { t_type: TetrominoType::O, x: 0, y: 0, rotation: 0, item: None })
    } else if stage == 5 {
        Some(Tetromino { t_type: TetrominoType::I, x: 0, y: 0, rotation: 1, item: None })
    } else if stage == 6 {
        Some(Tetromino { t_type: TetrominoType::O, x: 4, y: 0, rotation: 0, item: None })
    } else if stage == 7 {
        Some(Tetromino { t_type: TetrominoType::I, x: 4, y: 0, rotation: 1, item: None })
    } else {
        None
    }
}

/// `gs` is the practice game of a lesson: a new easy game with the lesson's
/// locked cells and piece; the Zone lesson starts with a full meter and the
/// item lesson with the Magnet in the inventory.
#[verifier::opaque]
pub open spec fn tutorial_game(stage: usize, sub_step: usize, gs: GameState) -> bool {
    &&& forall|y: int, x: int|
        0 <= y < BOARD_HEIGHT && 0 <= x < BOARD_WIDTH ==> #[trigger] gs.board[y][x] == tutorial_cell(stage, sub_step, x, y)
    &&& forall|y: int, x: int| 0 <= y < BOARD_HEIGHT && 0 <= x < BOARD_WIDTH ==> (#[trigger] gs.item_board[y][x]) is None
    &&& match tutorial_piece(stage, sub_step) {
        Some(p) => gs.current_piece == p,
        None => spawned(gs.current_piece, gs.current_piece.t_type) && gs.item_spawned == gs.current_piece.item
            && is_full_bag(seq![gs.current_piece.t_type] + gs.bag@),
    }
    &&& exists|t: TetrominoType| is_full_bag(seq![t] + gs.bag@)
    &&& gs.score == 0 && gs.level == 1 && gs.total_lines == 0 && !gs.is_game_over
    &&& gs.difficulty == Difficulty::Easy
    &&& gs.hold_piece is None && !gs.has_held
    &&& gs.b2b == 0 && gs.combo == 0 && !gs.last_move_was_spin
    &&& !gs.lock_delay_active && gs.lock_delay_timer_ms == 0 && gs.fall_timer_ms == 0
    &&& gs.moves_since_lock_delay == 0
    &&& !gs.is_in_zone && gs.zone_lines_cleared == 0 && gs.zone_timer_ms == 0
    &&& gs.zone_meter == if stage == 7 { 100u32 } else { 0u32 }
    &&& gs.inventory == if stage == 8 { Some(ItemType::Magnet) } else { None }
    &&& gs.item_acquired is None
}

/// `after` is `before` with the lesson's progress flags reset and a fresh
/// practice game.
#[verifier::opaque]
pub open spec fn lesson_reset(before: TutorialState, after: TutorialState) -> bool {
    let s = before.stage;
    &&& tutorial_game(s, before.sub_step, after.game_state)
    &&& after == TutorialState {
        reached_left: if s == 1 { false } else { before.reached_left },
        reached_right: if s == 1 { false } else { before.reached_right },
        soft_drops: if s == 2 { 0 } else { before.soft_drops },
        rotated_cw: if s == 3 { false } else { before.rotated_cw },
        rotated_ccw: if s == 3 { false } else { before.rotated_ccw },
        inspected: if s == 3 { false } else { before.inspected },
        held_first: if s == 4 { false } else { before.held_first },
        swapped_back: if s == 4 { false } else { before.swapped_back },
        tried_denied: if s == 4 { false } else { before.tried_denied },
        radar_scanned: if s == 6 { false } else { before.radar_scanned },
        zone_entered: if s == 7 { false } else { before.zone_entered },
        item_step: if s == 8 { 0 } else { before.item_step },
        game_state: after.game_state,
        ..before
    }
}

impl TutorialState {
    /// Tutorial state at lesson `stage` (clamped to 1..9), with nothing done
    /// yet and the lesson's practice game.
    pub fn new(stage: usize) -> (r: Self)
        ensures
            r.stage == if stage < 1 { 1 } else if stage > 9 { 9 } else { stage },
            r.sub_step == 0,
            !r.reached_left && !r.reached_right && r.soft_drops == 0,
            !r.rotated_cw && !r.rotated_ccw && !r.inspected,
            !r.held_first && !r.swapped_back && !r.tried_denied,
            !r.radar_scanned && !r.zone_entered && r.item_step == 0,
            tutorial_game(r.stage, 0, r.game_state),
    {
        let clamped = if stage < 1 {
            1
        } else if stage > 9 {
            9
        } else {
            stage
        };
        let mut state = Self {
            stage: clamped,
            sub_step: 0,
            reached_left: false,
            reached_right: false,
            soft_drops: 0,
            rotated_cw: false,
            rotated_ccw: false,
            inspected: false,
            held_first: false,
            swapped_back: false,
            tried_denied: false,
            radar_scanned: false,
            zone_entered: false,
            item_step: 0,
            game_state: GameState::new(Difficulty::Easy),
        };
        state.init_stage_board();
        proof {
            reveal(lesson_reset);
        }
        state
    }

    /// Starts the current lesson over: resets its progress flags and sets up
    /// its practice game.
    pub fn init_stage_board(&mut self)
        ensures
            lesson_reset(*old(self), *final(self)),
    {
        let stage = self.stage;
        if stage == 1 {
            self.reached_left = false;
            self.reached_right = false;
        } else if stage == 2 {
            self.soft_drops = 0;
        } else if stage == 3 {
            self.rotated_cw = false;
            self.rotated_ccw = false;
            self.inspected = false;
        } else if stage == 4 {
            self.held_first = false;
            self.swapped_back = false;
            self.tried_denied = false;
        } else if stage == 6 {
            self.radar_scanned = false;
        } else if stage == 7 {
            self.zone_entered = false;
        } else if stage == 8 {
            self.item_step = 0;
        }
        self.game_state = lesson_game(stage, self.sub_step);
        proof {
            reveal(lesson_reset);
        }
    }
}

/// The practice game of a lesson.
fn lesson_game(stage: usize, sub_step: usize) -> (gs: GameState)
    ensures
        tutorial_game(stage, sub_step, gs),
{
    let mut gs = GameState::new(Difficulty::Easy);
    gs.fall_timer_ms = 0;
    let ghost fresh = gs;
    gs.board = lesson_board(stage, sub_step);
    if stage == 1 {
        gs.current_piece = placed_piece(TetrominoType::O, 4, 0, 0);
    } else if stage == 2 {
        gs.current_piece = placed_piece(TetrominoType::I, 3, 0, 0);
    } else if stage == 3 {
        gs.current_piece = placed_piece(TetrominoType::T, 3, 2, 0);
    } else if stage == 4 {
        gs.hold_piece = None;
        gs.current_piece = placed_piece(TetrominoType::S, 3, 0, 0);
    } else if stage == 5 {
        if sub_step == 0 {
            gs.current_piece = placed_piece(TetrominoType::O, 0, 0, 0);
        } else {
            gs.current_piece = placed_piece(TetrominoType::I, 0, 0, 1);
        }
    } else if stage == 6 {
        gs.current_piece = placed_piece(TetrominoType::O, 4, 0, 0);
    } else if stage == 7 {
        gs.zone_meter = 100;
        gs.current_piece = placed_piece(TetrominoType::I, 4, 0, 1);
    } else if stage == 8 {
        gs.inventory = Some(ItemType::Magnet);
    }
    proof {
        assert(is_full_bag(seq![fresh.current_piece.t_type] + gs.bag@));
        reveal(tutorial_game);
    }
    gs
}

/// A piece of shape `t` at (`x`, `y`) in rotation `rotation`, carrying no item.
fn placed_piece(t: TetrominoType, x: i32, y: i32, rotation: usize) -> (p: Tetromino)
    ensures
        p == (Tetromino { t_type: t, x, y, rotation, item: None }),
{
    let mut p = Tetromino::new(t);
    p.x = x;
    p.y = y;
    p.rotation = rotation;
    p
}

/// The locked cells of a lesson's practice board.
fn lesson_board(stage: usize, sub_step: usize) -> (b: Board)
    ensures
        forall|y: int, x: int|
            0 <= y < BOARD_HEIGHT && 0 <= x < BOARD_WIDTH ==> #[trigger] b[y][x] == tutorial_cell(stage, sub_step, x, y),
{
    let mut b: Board = [[None; 10]; 20];
    if stage == 5 && sub_step == 0 {
        let mut col: usize = 0;
        while col < 10
            invariant
                col <= 10,
                forall|y: int, x: int|
                    0 <= y < BOARD_HEIGHT && 0 <= x < BOARD_WIDTH ==> #[trigger] b[y][x] == if y == 19 && x != 4 && x < col {
                        Some(TetrominoType::J)
                    } else {
                        None
                    },
            decreases 10 - col,
        {
            if col != 4 {
                b[19][col] = Some(TetrominoType::J);
            }
            col = col + 1;
        }
    } else if stage == 5 {
        let mut r: usize = 16;
        while r < 20
            invariant
                16 <= r <= 20,
                forall|y: int, x: int|
                    0 <= y < BOARD_HEIGHT && 0 <= x < BOARD_WIDTH ==> #[trigger] b[y][x] == if 16 <= y < r && x < 9 {
                        Some(TetrominoType::J)
                    } else {
                        None
                    },
            decreases 20 - r,
        {
            let mut col: usize = 0;
            while col < 9
                invariant
                    16 <= r < 20,
                    col <= 9,
                    forall|y: int, x: int|
                        0 <= y < BOARD_HEIGHT && 0 <= x < BOARD_WIDTH ==> #[trigger] b[y][x] == if (16 <= y < r && x < 9)
                            || (y == r && x < col) {
                            Some(TetrominoType::J)
                        } else {
                            None
                        },
                decreases 9 - col,
            {
                b[r][col] = Some(TetrominoType::J);
                col = col + 1;
            }
            r = r + 1;
        }
    } else if stage == 6 {
        let heights: [usize; 10] = [2, 5, 1, 7, 3, 0, 6, 4, 8, 2];
        let mut col: usize = 0;
        while col < 10
            invariant
                col <= 10,
                forall|c: int| 0 <= c < 10 ==> #[trigger] heights[c] == radar_height(c),
                forall|y: int, x: int|
                    0 <= y < BOARD_HEIGHT && 0 <= x < BOARD_WIDTH ==> #[trigger] b[y][x] == if x < col && y
                        >= BOARD_HEIGHT - radar_height(x) {
                        Some(TetrominoType::T)
                    } else {
                        None
                    },
            decreases 10 - col,
        {
            let h = heights[col];
            let mut r: usize = 20 - h;
            while r < 20
                invariant
                    col < 10,
                    h == radar_height(col as int),
                    h <= 8,
                    20 - h <= r <= 20,
                    forall|y: int, x: int|
                        0 <= y < BOARD_HEIGHT && 0 <= x < BOARD_WIDTH ==> #[trigger] b[y][x] == if (x < col && y
                            >= BOARD_HEIGHT - radar_height(x)) || (x == col && 20 - h <= y < r) {
                            Some(TetrominoType::T)
                        } else {
                            None
                        },
                decreases 20 - r,
            {
                b[r][col] = Some(TetrominoType::T);
                r = r + 1;
            }
            col = col + 1;
        }
    } else if stage == 7 {
        let mut col: usize = 0;
        while col < 10
            invariant
                col <= 10,
                forall|y: int, x: int|
                    0 <= y < BOARD_HEIGHT && 0 <= x < BOARD_WIDTH ==> #[trigger] b[y][x] == if (y == 18 || y == 19) && x
                        != 4 && x < col {
                        Some(TetrominoType::L)
                    } else {
                        None
                    },
            decreases 10 - col,
        {
            if col != 4 {
                b[19][col] = Some(TetrominoType::L);
                b[18][col] = Some(TetrominoType::L);
            }
            col = col + 1;
        }
    } else if stage == 8 {
        b[17][2] = Some(TetrominoType::S);
        b[17][3] = Some(TetrominoType::S);
        b[16][6] = Some(TetrominoType::Z);
        b[16][7] = Some(TetrominoType::Z);
    }
    b
}

/// What an action did in the tutorial, for the sounds and words that follow.
#[derive(Clone, Copy, PartialEq, Eq, Debug, Structural)]
pub enum TutorialEvent {
    /// Back: the tutorial is left for the main menu.
    Exit,
    /// A sideways move in the movement or line lessons: whether the piece
    /// moved, whether it reached the wall the lesson asks for, and the
    /// piece's column position after the move.
    Lateral { moved: bool, reached_edge: bool, column: i32 },
    /// A soft drop in the drop lesson, and whether the piece moved.
    SoftDrop(bool),
    /// The piece was inspected in the rotation lesson.
    Inspect,
    /// A rotation in the rotation lesson, and whether the piece turned.
    Turn(bool),
    /// First hold of the hold lesson.
    HoldFirst,
    /// Second hold of the hold lesson: the pieces swap back.
    HoldSwap,
    /// Any later hold in the hold lesson is refused.
    HoldDenied,
    /// The radar was swept in the radar lesson.
    RadarScan,
    /// The Zone was entered in the Zone lesson.
    ZoneEnter,
    /// An item was used in the item lesson.
    UseItem(ItemType),
    /// The drop that finishes a lesson (or its first part): whether the drop
    /// thud plays, and the line count whose clear sound follows (0: none).
    LessonDrop { thud: bool, cleared: u32 },
    /// Select on the last page: the tutorial is complete.
    Graduate,
    /// Select on the radar page skips to the Zone lesson.
    Skip,
    /// Nothing to do in this lesson.
    Nothing,
}

/// `pre` with its lesson moved on to `stage`.
pub open spec fn at_stage(pre: TutorialState, stage: usize) -> TutorialState {
    TutorialState { stage, ..pre }
}

/// The actions of a lesson that move or turn the practice piece are well
/// defined, and the soft-drop counter has room.
#[verifier::opaque]
pub open spec fn tutorial_action_fits(pre: TutorialState, a: InputAction) -> bool {
    let g = pre.game_state;
    &&& (pre.stage == 1 || pre.stage == 5) && (a == InputAction::Left || a == InputAction::Right)
        ==> action_fits(g, a)
    &&& pre.stage == 2 && a == InputAction::Down ==> action_fits(g, a) && pre.soft_drops < usize::MAX
    &&& pre.stage == 2 && a == InputAction::HardDrop ==> action_fits(g, a)
    &&& pre.stage == 3 && (a == InputAction::RotateLeft || a == InputAction::RotateRight)
        ==> action_fits(g, a)
}

/// The lesson that follows a finishing drop, as (stage, sub-step); `None` when
/// a drop finishes nothing.
pub open spec fn drop_next(stage: usize, sub_step: usize) -> Option<(usize, usize)> {
    if stage == 2 {
        Some((3, sub_step))
    } else if stage == 3 {
        Some((4, sub_step))
    } else if stage == 4 {
        Some((5, 0))
    } else if stage == 5 && sub_step == 0 {
        Some((5, 1))
    } else if stage == 5 {
        Some((6, sub_step))
    } else if stage == 6 {
        Some((7, sub_step))
    } else if stage == 7 {
        Some((8, sub_step))
    } else {
        None
    }
}

/// `pre` moved on to the lesson that follows its finishing drop.
pub open spec fn after_drop(pre: TutorialState) -> TutorialState {
    match drop_next(pre.stage, pre.sub_step) {
        Some((stage, sub_step)) => TutorialState { stage, sub_step, ..pre },
        None => pre,
    }
}

/// Sounds of a finishing drop: the thud (all but the radar lesson) and the
/// clear of one line, a four-line clear, or two lines.
pub open spec fn drop_event(stage: usize, sub_step: usize) -> TutorialEvent {
    TutorialEvent::LessonDrop {
        thud: stage != 6,
        cleared: if stage == 5 && sub_step == 0 {
            1
        } else if stage == 5 {
            4
        } else if stage == 7 {
            2
        } else {
            0
        },
    }
}

/// The piece touches the left wall (`dx` < 0) or the right wall.
#[verifier::opaque]
pub open spec fn touches_wall(p: Tetromino, dx: int) -> bool {
    if dx < 0 {
        p.x == 0
    } else {
        max_block_x(p) + 1 == BOARD_WIDTH
    }
}

/// A sideways move by `dx` in the movement lesson: moving onto the wall on
/// that side marks it reached, and reaching both walls moves on to the drop
/// lesson.
pub open spec fn lateral_lesson(pre: TutorialState, dx: int, post: TutorialState, e: TutorialEvent) -> bool {
    let g = pre.game_state;
    let ok = valid_position(g.board, shifted(g.current_piece, dx, 0));
    let g1 = shift_attempt(g, dx);
    let edge = ok && touches_wall(g1.current_piece, dx);
    let rl = pre.reached_left || (dx < 0 && edge);
    let rr = pre.reached_right || (dx > 0 && edge);
    let mid = TutorialState { reached_left: rl, reached_right: rr, game_state: g1, ..pre };
    &&& e == TutorialEvent::Lateral { moved: ok, reached_edge: edge, column: g1.current_piece.x }
    &&& if ok && rl && rr {
        lesson_reset(at_stage(mid, 2), post)
    } else {
        post == mid
    }
}

/// `post` and `e` are the tutorial and event after action `a` on `pre`.
pub open spec fn tutorial_played(pre: TutorialState, a: InputAction, post: TutorialState, e: TutorialEvent) -> bool {
    let g = pre.game_state;
    let s = pre.stage;
    let idle = e == TutorialEvent::Nothing && post == pre;
    match a {
        InputAction::Back => e == TutorialEvent::Exit && post == pre,
        InputAction::Left | InputAction::Right => {
            let dx: int = if a == InputAction::Left { -1 } else { 1 };
            if s == 1 {
                lateral_lesson(pre, dx, post, e)
            } else if s == 5 {
                e == TutorialEvent::Lateral {
                    moved: valid_position(g.board, shifted(g.current_piece, dx, 0)),
                    reached_edge: false,
                    column: shift_attempt(g, dx).current_piece.x,
                } && post == TutorialState { game_state: shift_attempt(g, dx), ..pre }
            } else {
                idle
            }
        },
        InputAction::Down => if s == 2 {
            let ok = valid_position(g.board, shifted(g.current_piece, 0, 1));
            e == TutorialEvent::SoftDrop(ok) && post == if ok {
                TutorialState {
                    soft_drops: (pre.soft_drops + 1) as usize,
                    game_state: moved_by(g, 0, 1),
                    ..pre
                }
            } else {
                pre
            }
        } else {
            idle
        },
        InputAction::HardDrop => if drop_next(s, pre.sub_step) is Some {
            e == drop_event(s, pre.sub_step) && lesson_reset(after_drop(pre), post)
        } else {
            idle
        },
        InputAction::PieceInfo => if s == 3 {
            e == TutorialEvent::Inspect && post == TutorialState { inspected: true, ..pre }
        } else {
            idle
        },
        InputAction::RotateRight => if s == 3 {
            let end = rotation_cw(g.current_piece.rotation);
            let ok = rotation_outcome(g.board, g.current_piece, end) is Some;
            e == TutorialEvent::Turn(ok) && post == TutorialState {
                rotated_cw: pre.rotated_cw || ok,
                game_state: turn_attempt(g, end),
                ..pre
            }
        } else {
            idle
        },
        InputAction::RotateLeft => if s == 3 {
            let end = rotation_ccw(g.current_piece.rotation);
            let ok = rotation_outcome(g.board, g.current_piece, end) is Some;
            e == TutorialEvent::Turn(ok) && post == TutorialState {
                rotated_ccw: pre.rotated_ccw || ok,
                game_state: turn_attempt(g, end),
                ..pre
            }
        } else {
            idle
        },
        InputAction::Hold => if s == 4 {
            hold_lesson_step(pre, post, e)
        } else {
            idle
        },
        InputAction::Radar => if s == 6 {
            e == TutorialEvent::RadarScan && post == TutorialState { radar_scanned: true, ..pre }
        } else {
            idle
        },
        InputAction::Zone => if s == 7 {
            e == TutorialEvent::ZoneEnter && post == TutorialState { zone_entered: true, ..pre }
        } else {
            idle
        },
        InputAction::UseItem => if s == 8 {
            if pre.item_step == 0 {
                e == TutorialEvent::UseItem(ItemType::Magnet) && post == TutorialState { item_step: 1, ..pre }
            } else if pre.item_step == 1 {
                e == TutorialEvent::UseItem(ItemType::Laser) && post == TutorialState { item_step: 2, ..pre }
            } else {
                e == TutorialEvent::UseItem(ItemType::Nuke) && post == at_stage(pre, 9)
            }
        } else {
            idle
        },
        InputAction::Select => if s == 6 {
            e == TutorialEvent::Skip && lesson_reset(at_stage(pre, 7), post)
        } else if s == 9 {
            e == TutorialEvent::Graduate && post == pre
        } else {
            idle
        },
        _ => idle,
    }
}

/// The hold lesson: the first hold puts the S piece on hold and brings an I
/// piece, the second swaps them back, any later hold is refused.
pub open spec fn hold_lesson_step(pre: TutorialState, post: TutorialState, e: TutorialEvent) -> bool {
    let g = pre.game_state;
    if !pre.held_first {
        e == TutorialEvent::HoldFirst && post == TutorialState {
            held_first: true,
            game_state: GameState {
                hold_piece: Some(TetrominoType::S),
                current_piece: Tetromino { t_type: TetrominoType::I, x: 3, y: 0, rotation: 0, item: None },
                ..g
            },
            ..pre
        }
    } else if !pre.swapped_back {
        e == TutorialEvent::HoldSwap && post == TutorialState {
            swapped_back: true,
            game_state: GameState {
                hold_piece: Some(TetrominoType::I),
                current_piece: Tetromino { t_type: TetrominoType::S, x: 3, y: 0, rotation: 0, item: None },
                ..g
            },
            ..pre
        }
    } else {
        e == TutorialEvent::HoldDenied && post == TutorialState { tried_denied: true, ..pre }
    }
}

/// Starting a lesson over does not depend on the practice game it replaces.
proof fn lemma_reset_ignores_game(a: TutorialState, b: TutorialState, post: TutorialState)
    requires
        lesson_reset(a, post),
        b == (TutorialState { game_state: b.game_state, ..a }),
    ensures
        lesson_reset(b, post),
{
    reveal(lesson_reset);
}

impl TutorialState {
    /// Carries out action `a` in the current lesson: records the lesson's
    /// progress and moves on to the next lesson when this one is done.
    pub fn apply_action(&mut self, a: InputAction) -> (e: TutorialEvent)
        requires
            tutorial_action_fits(*old(self), a),
        ensures
            tutorial_played(*old(self), a, *final(self), e),
    {
        let stage = self.stage;
        match a {
            InputAction::Back => TutorialEvent::Exit,
            InputAction::Left | InputAction::Right => self.sideways_step(a == InputAction::Left),
            InputAction::Down => self.soft_drop_step(),
            InputAction::HardDrop => self.finishing_drop(),
            InputAction::RotateRight | InputAction::RotateLeft => self.turn_step(a == InputAction::RotateRight),
            InputAction::Hold => {
                if stage == 4 {
                    self.hold_lesson()
                } else {
                    TutorialEvent::Nothing
                }
            },
            _ => self.flag_step(a),
        }
    }

    /// A sideways move: it counts in the movement and line lessons only.
    fn sideways_step(&mut self, left: bool) -> (e: TutorialEvent)
        requires
            tutorial_action_fits(*old(self), if left { InputAction::Left } else { InputAction::Right }),
        ensures
            tutorial_played(*old(self), if left { InputAction::Left } else { InputAction::Right }, *final(self), e),
    {
        let a = if left { InputAction::Left } else { InputAction::Right };
        assert(self.stage == 1 || self.stage == 5 ==> action_fits(self.game_state, a)) by {
            reveal(tutorial_action_fits);
        }
        if self.stage == 1 {
            self.lateral(left)
        } else if self.stage == 5 {
            let (moved, _edge) = shift_practice_piece(&mut self.game_state, left);
            TutorialEvent::Lateral { moved, reached_edge: false, column: self.game_state.current_piece.x }
        } else {
            TutorialEvent::Nothing
        }
    }

    /// A soft drop: it counts in the drop lesson only.
    fn soft_drop_step(&mut self) -> (e: TutorialEvent)
        requires
            tutorial_action_fits(*old(self), InputAction::Down),
        ensures
            tutorial_played(*old(self), InputAction::Down, *final(self), e),
    {
        if self.stage != 2 {
            return TutorialEvent::Nothing;
        }
        assert(action_fits(self.game_state, InputAction::Down) && self.soft_drops < usize::MAX) by {
            reveal(tutorial_action_fits);
        }
        let ok = self.game_state.soft_drop();
        if ok {
            self.soft_drops = self.soft_drops + 1;
        }
        TutorialEvent::SoftDrop(ok)
    }

    /// A rotation: it counts in the rotation lesson only.
    fn turn_step(&mut self, cw: bool) -> (e: TutorialEvent)
        requires
            tutorial_action_fits(*old(self), if cw { InputAction::RotateRight } else { InputAction::RotateLeft }),
        ensures
            tutorial_played(
                *old(self),
                if cw { InputAction::RotateRight } else { InputAction::RotateLeft },
                *final(self),
                e,
            ),
    {
        if self.stage != 3 {
            return TutorialEvent::Nothing;
        }
        let a = if cw { InputAction::RotateRight } else { InputAction::RotateLeft };
        assert(action_fits(self.game_state, a)) by {
            reveal(tutorial_action_fits);
        }
        if cw {
            let ok = self.game_state.rotate_cw();
            if ok {
                self.rotated_cw = true;
            }
            TutorialEvent::Turn(ok)
        } else {
            let ok = self.game_state.rotate_ccw();
            if ok {
                self.rotated_ccw = true;
            }
            TutorialEvent::Turn(ok)
        }
    }

    /// Piece info, radar, Zone, items and Select: they only record progress
    /// or move between lessons.
    fn flag_step(&mut self, a: InputAction) -> (e: TutorialEvent)
        requires
            a != InputAction::Back,
            a != InputAction::Left,
            a != InputAction::Right,
            a != InputAction::Down,
            a != InputAction::HardDrop,
            a != InputAction::RotateLeft,
            a != InputAction::RotateRight,
            a != InputAction::Hold,
        ensures
            tutorial_played(*old(self), a, *final(self), e),
    {
        let stage = self.stage;
        match a {
            InputAction::PieceInfo => {
                if stage == 3 {
                    self.inspected = true;
                    TutorialEvent::Inspect
                } else {
                    TutorialEvent::Nothing
                }
            },
            InputAction::Radar => {
                if stage == 6 {
                    self.radar_scanned = true;
                    TutorialEvent::RadarScan
                } else {
                    TutorialEvent::Nothing
                }
            },
            InputAction::Zone => {
                if stage == 7 {
                    self.zone_entered = true;
                    TutorialEvent::ZoneEnter
                } else {
                    TutorialEvent::Nothing
                }
            },
            InputAction::UseItem => {
                if stage == 8 {
                    if self.item_step == 0 {
                        self.item_step = 1;
                        TutorialEvent::UseItem(ItemType::Magnet)
                    } else if self.item_step == 1 {
                        self.item_step = 2;
                        TutorialEvent::UseItem(ItemType::Laser)
                    } else {
                        self.stage = 9;
                        TutorialEvent::UseItem(ItemType::Nuke)
                    }
                } else {
                    TutorialEvent::Nothing
                }
            },
            InputAction::Select => {
                if stage == 6 {
                    self.stage = 7;
                    self.init_stage_board();
                    TutorialEvent::Skip
                } else if stage == 9 {
                    TutorialEvent::Graduate
                } else {
                    TutorialEvent::Nothing
                }
            },
            _ => TutorialEvent::Nothing,
        }
    }

    /// A sideways move in the movement lesson.
    fn lateral(&mut self, left: bool) -> (e: TutorialEvent)
        requires
            old(self).stage == 1,
            action_fits(old(self).game_state, if left { InputAction::Left } else { InputAction::Right }),
        ensures
            lateral_lesson(*old(self), if left { -1 } else { 1 }, *final(self), e),
    {
        let ghost dx: int = if left { -1 } else { 1 };
        let (moved, edge) = shift_practice_piece(&mut self.game_state, left);
        let column = self.game_state.current_piece.x;
        if edge {
            if left {
                self.reached_left = true;
            } else {
                self.reached_right = true;
            }
        }
        if moved && self.reached_left && self.reached_right {
            self.stage = 2;
            self.init_stage_board();
        }
        TutorialEvent::Lateral { moved, reached_edge: edge, column }
    }

    /// A hard drop: it finishes the drop, rotation, hold, line, radar and Zone
    /// lessons (the first line lesson moves on to its second part).
    fn finishing_drop(&mut self) -> (e: TutorialEvent)
        requires
            tutorial_action_fits(*old(self), InputAction::HardDrop),
        ensures
            drop_next(old(self).stage, old(self).sub_step) is Some ==> e == drop_event(old(self).stage, old(self).sub_step)
                && lesson_reset(after_drop(*old(self)), *final(self)),
            drop_next(old(self).stage, old(self).sub_step) is None ==> e == TutorialEvent::Nothing
                && *final(self) == *old(self),
    {
        let ghost pre = *self;
        let next = next_lesson(self.stage, self.sub_step);
        match next {
            Some((stage, sub_step)) => {
                let e = lesson_drop_event(self.stage, self.sub_step);
                if self.stage == 2 {
                    assert(action_fits(self.game_state, InputAction::HardDrop)) by {
                        reveal(tutorial_action_fits);
                    }
                    drop_practice_piece(&mut self.game_state);
                }
                self.stage = stage;
                self.sub_step = sub_step;
                let ghost mid = *self;
                assert(mid == (TutorialState { game_state: mid.game_state, ..after_drop(pre) }));
                self.init_stage_board();
                proof {
                    lemma_reset_ignores_game(mid, after_drop(pre), *self);
                }
                e
            },
            None => TutorialEvent::Nothing,
        }
    }

    /// The hold lesson: hold once, swap back, then find further holds refused.
    fn hold_lesson(&mut self) -> (e: TutorialEvent)
        requires
            old(self).stage == 4,
        ensures
            hold_lesson_step(*old(self), *final(self), e),
    {
        if !self.held_first {
            self.held_first = true;
            self.game_state.hold_piece = Some(TetrominoType::S);
            self.game_state.current_piece = Tetromino::new(TetrominoType::I);
            TutorialEvent::HoldFirst
        } else if !self.swapped_back {
            self.swapped_back = true;
            self.game_state.hold_piece = Some(TetrominoType::I);
            self.game_state.current_piece = Tetromino::new(TetrominoType::S);
            TutorialEvent::HoldSwap
        } else {
            self.tried_denied = true;
            TutorialEvent::HoldDenied
        }
    }
}

/// Moves the practice piece one column left or right, if it fits; reports
/// whether it moved and whether it now touches the wall on that side.
fn shift_practice_piece(g: &mut GameState, left: bool) -> (r: (bool, bool))
    requires
        action_fits(*old(g), if left { InputAction::Left } else { InputAction::Right }),
    ensures
        *final(g) == shift_attempt(*old(g), if left { -1 } else { 1 }),
        r.0 == valid_position(old(g).board, shifted(old(g).current_piece, if left { -1 } else { 1 }, 0)),
        r.1 == (r.0 && touches_wall(final(g).current_piece, if left { -1 } else { 1 })),
{
    let moved = if left {
        g.move_left()
    } else {
        g.move_right()
    };
    if !moved {
        return (false, false);
    }
    proof {
        lemma_valid_on_board(g.board, g.current_piece);
        reveal(touches_wall);
    }
    let edge = if left {
        g.current_piece.x == 0
    } else {
        g.current_piece.right_column() == 10
    };
    (true, edge)
}

/// Drops the practice piece of the drop lesson straight down and locks it, as
/// a hard drop in play does; the lesson that follows sets up a fresh board, so
/// what the lock reports is not kept.
fn drop_practice_piece(g: &mut GameState)
    requires
        action_fits(*old(g), InputAction::HardDrop),
    ensures
        exists|r: LockResult| #[trigger]
            locked(dropped(*old(g), landing_y(old(g).board, old(g).current_piece)), *final(g), r),
{
    let r = g.hard_drop();
    assert(locked(dropped(*old(g), landing_y(old(g).board, old(g).current_piece)), *g, r));
}

/// The lesson and part that follow a finishing drop (see `drop_next`).
fn next_lesson(stage: usize, sub_step: usize) -> (r: Option<(usize, usize)>)
    ensures
        r == drop_next(stage, sub_step),
{
    if stage == 2 {
        Some((3, sub_step))
    } else if stage == 3 {
        Some((4, sub_step))
    } else if stage == 4 {
        Some((5, 0))
    } else if stage == 5 && sub_step == 0 {
        Some((5, 1))
    } else if stage == 5 {
        Some((6, sub_step))
    } else if stage == 6 {
        Some((7, sub_step))
    } else if stage == 7 {
        Some((8, sub_step))
    } else {
        None
    }
}

/// The sounds of a finishing drop (see `drop_event`).
fn lesson_drop_event(stage: usize, sub_step: usize) -> (e: TutorialEvent)
    ensures
        e == drop_event(stage, sub_step),
{
    let cleared: u32 = if stage == 5 && sub_step == 0 {
        1
    } else if stage == 5 {
        4
    } else if stage == 7 {
        2
    } else {
        0
    };
    TutorialEvent::LessonDrop { thud: stage != 6, cleared }
}

/// What the page of the current lesson shows: the lesson, the part of it,
/// and the progress it reports.
#[derive(Clone, Copy, PartialEq, Eq, Debug, Structural)]
pub enum LessonPage {
    /// Which walls the piece has reached.
    Movement { left_done: bool, right_done: bool },
    /// How many soft drops were made.
    Drops { soft_drops: usize },
    /// Which of inspection, clockwise and counter-clockwise turns were done.
    Rotation { inspected: bool, cw_done: bool, ccw_done: bool },
    Hold,
    /// First part of the line lesson: a single line.
    SingleLine,
    /// Second part of the line lesson: four lines at once.
    FourLines,
    Radar,
    Zone,
    /// The item being taught: 0 the Magnet, 1 the Laser, 2 the Nuke.
    Items { item: usize },
    Graduation,
}

/// The page of lesson `ts.stage` (anything outside 1 to 8 is graduation).
pub open spec fn lesson_page(ts: TutorialState) -> LessonPage {
    match stage_of(ts.stage as int) {
        TutorialStage::LateralMovement => LessonPage::Movement { left_done: ts.reached_left, right_done: ts.reached_right },
        TutorialStage::VerticalPitch => LessonPage::Drops { soft_drops: ts.soft_drops },
        TutorialStage::RotationInspection => LessonPage::Rotation {
            inspected: ts.inspected,
            cw_done: ts.rotated_cw,
            ccw_done: ts.rotated_ccw,
        },
        TutorialStage::HoldSlot => LessonPage::Hold,
        TutorialStage::LineClears => if ts.sub_step == 0 {
            LessonPage::SingleLine
        } else {
            LessonPage::FourLines
        },
        TutorialStage::RadarSweep => LessonPage::Radar,
        TutorialStage::ZoneMode => LessonPage::Zone,
        TutorialStage::PowerUpItems => LessonPage::Items { item: if ts.item_step <= 2 { ts.item_step } else { 2 } },
        TutorialStage::Graduation => LessonPage::Graduation,
    }
}

/// The screen after a lesson event: leaving or graduating returns to the
/// main menu; otherwise the tutorial shows lesson `stage`.
pub open spec fn lesson_screen(e: TutorialEvent, stage: usize) -> AppScreen {
    if e == TutorialEvent::Exit || e == TutorialEvent::Graduate {
        AppScreen::MainMenu { selection: 0 }
    } else {
        AppScreen::Tutorial { stage }
    }
}

impl TutorialState {
    /// What the page of the current lesson shows.
    pub fn page(&self) -> (r: LessonPage)
        ensures
            r == lesson_page(*self),
    {
        match TutorialStage::from_usize(self.stage) {
            TutorialStage::LateralMovement => LessonPage::Movement {
                left_done: self.reached_left,
                right_done: self.reached_right,
            },
            TutorialStage::VerticalPitch => LessonPage::Drops { soft_drops: self.soft_drops },
            TutorialStage::RotationInspection => LessonPage::Rotation {
                inspected: self.inspected,
                cw_done: self.rotated_cw,
                ccw_done: self.rotated_ccw,
            },
            TutorialStage::HoldSlot => LessonPage::Hold,
            TutorialStage::LineClears => if self.sub_step == 0 {
                LessonPage::SingleLine
            } else {
                LessonPage::FourLines
            },
            TutorialStage::RadarSweep => LessonPage::Radar,
            TutorialStage::ZoneMode => LessonPage::Zone,
            TutorialStage::PowerUpItems => LessonPage::Items {
                item: if self.item_step <= 2 { self.item_step } else { 2 },
            },
            TutorialStage::Graduation => LessonPage::Graduation,
        }
    }
}

/// The screen shown after a lesson event (see `lesson_screen`).
pub fn screen_after_lesson(e: TutorialEvent, stage: usize) -> (r: AppScreen)
    ensures
        r == lesson_screen(e, stage),
{
    if e == TutorialEvent::Exit || e == TutorialEvent::Graduate {
        AppScreen::MainMenu { selection: 0 }
    } else {
        AppScreen::Tutorial { stage }
    }
}

/// Lessons only move forward: whatever the player does, the lesson number
/// never decreases, grows by at most one, and stays between 1 and 9.
pub proof fn lemma_lessons_move_forward(pre: TutorialState, a: InputAction, post: TutorialState, e: TutorialEvent)
    requires
        1 <= pre.stage <= 9,
        tutorial_played(pre, a, post, e),
    ensures
        pre.stage <= post.stage <= pre.stage + 1,
        1 <= post.stage <= 9,
{
    reveal(lesson_reset);
}

impl TutorialState {
    /// Whether action `a` keeps the practice game's coordinates and the
    /// soft-drop counter within range (see `tutorial_action_fits`).
    pub fn action_fits_check(&self, a: InputAction) -> (r: bool)
        ensures
            r == tutorial_action_fits(*self, a),
    {
        proof {
            reveal(tutorial_action_fits);
        }
        let s = self.stage;
        let g = &self.game_state;
        if (s == 1 || s == 5) && (a == InputAction::Left || a == InputAction::Right) {
            g.action_fits_check(a)
        } else if s == 2 && a == InputAction::Down {
            g.action_fits_check(a) && self.soft_drops < usize::MAX
        } else if s == 2 && a == InputAction::HardDrop {
            g.action_fits_check(a)
        } else if s == 3 && (a == InputAction::RotateLeft || a == InputAction::RotateRight) {
            g.action_fits_check(a)
        } else {
            true
        }
    }
}

impl Default for TutorialState {
    /// The tutorial at its first lesson (see `TutorialState::new`).
    fn default() -> (r: Self)
        ensures
            r.stage == 1 && r.sub_step == 0,
            !r.reached_left && !r.reached_right && r.soft_drops == 0,
            !r.rotated_cw && !r.rotated_ccw && !r.inspected,
            !r.held_first && !r.swapped_back && !r.tried_denied,
            !r.radar_scanned && !r.zone_entered && r.item_step == 0,
            tutorial_game(1, 0, r.game_state),
    {
        Self::new(1)
    }
}

} // verus!
