//! The falling-block game: pieces, the board, movement, rotation with wall
//! kicks, line clears, scoring, Zone mode, the hold slot and power-up items.
use vstd::prelude::*;
use crate::settings::Difficulty;
use crate::random::{choose_item, gen_below, shuffle_shapes, thread_rng};

verus! {

pub const BOARD_WIDTH: usize = 10;
pub const BOARD_HEIGHT: usize = 20;

/// A grid of board cells, rows from top (0) to bottom (19).
pub type Board = [[Option<TetrominoType>; BOARD_WIDTH]; BOARD_HEIGHT];

/// Power-up items sitting in board cells.
pub type ItemBoard = [[Option<ItemType>; BOARD_WIDTH]; BOARD_HEIGHT];

/// The seven piece shapes.
#[derive(Clone, Copy, PartialEq, Eq, Debug, Structural)]
pub enum TetrominoType {
    I,
    J,
    L,
    O,
    S,
    T,
    Z,
}

/// Power-up items a piece can carry.
#[derive(Clone, Copy, PartialEq, Eq, Debug, Structural)]
pub enum ItemType {
    Magnet,
    Nuke,
    Laser,
}

/// The spoken name of an item.
pub open spec fn item_label(i: ItemType) -> Seq<char> {
    match i {
        ItemType::Magnet => "The Magnet"@,
        ItemType::Nuke => "The Nuke"@,
        ItemType::Laser => "The Laser"@,
    }
}

impl ItemType {
    pub fn as_str(&self) -> (r: &'static str)
        ensures
            r@ == item_label(*self),
    {
        match self {
            ItemType::Magnet => "The Magnet",
            ItemType::Nuke => "The Nuke",
            ItemType::Laser => "The Laser",
        }
    }
}

/// The spoken name of a piece, technical or descriptive.
pub open spec fn piece_label(t: TetrominoType, technical: bool) -> Seq<char> {
    if technical {
        match t {
            TetrominoType::I => "Bar"@,
            TetrominoType::J => "Left Angle"@,
            TetrominoType::L => "Right Angle"@,
            TetrominoType::O => "Square"@,
            TetrominoType::S => "Right Step"@,
            TetrominoType::T => "T"@,
            TetrominoType::Z => "Left Step"@,
        }
    } else {
        match t {
            TetrominoType::I => "Long bar"@,
            TetrominoType::J => "Left L-shape"@,
            TetrominoType::L => "Right L-shape"@,
            TetrominoType::O => "Square"@,
            TetrominoType::S => "Right zig-zag"@,
            TetrominoType::T => "T-shape"@,
            TetrominoType::Z => "Left zig-zag"@,
        }
    }
}

impl TetrominoType {
    pub fn as_str(&self, piece_callouts_technical: bool) -> (r: &'static str)
        ensures
            r@ == piece_label(*self, piece_callouts_technical),
    {
        if piece_callouts_technical {
            match self {
                TetrominoType::I => "Bar",
                TetrominoType::J => "Left Angle",
                TetrominoType::L => "Right Angle",
                TetrominoType::O => "Square",
                TetrominoType::S => "Right Step",
                TetrominoType::T => "T",
                TetrominoType::Z => "Left Step",
            }
        } else {
            match self {
                TetrominoType::I => "Long bar",
                TetrominoType::J => "Left L-shape",
                TetrominoType::L => "Right L-shape",
                TetrominoType::O => "Square",
                TetrominoType::S => "Right zig-zag",
                TetrominoType::T => "T-shape",
                TetrominoType::Z => "Left zig-zag",
            }
        }
    }
}

/// A piece: its shape, the top-left corner of its 4x4 box, its rotation and
/// the item it carries.
#[derive(Clone, Copy, Debug, PartialEq, Eq, Structural)]
pub struct Tetromino {
    pub t_type: TetrominoType,
    pub x: i32,
    pub y: i32,
    pub rotation: usize,
    pub item: Option<ItemType>,
}

/// The cells of each shape in each of its four rotations, relative to the
/// top-left corner of the piece's box.
pub open spec fn shape_table(t: TetrominoType) -> Seq<Seq<(int, int)>> {
    match t {
        TetrominoType::I => seq![
            seq![(0, 1), (1, 1), (2, 1), (3, 1)],
            seq![(2, 0), (2, 1), (2, 2), (2, 3)],
            seq![(0, 2), (1, 2), (2, 2), (3, 2)],
            seq![(1, 0), (1, 1), (1, 2), (1, 3)],
        ],
        TetrominoType::J => seq![
            seq![(0, 0), (0, 1), (1, 1), (2, 1)],
            seq![(1, 0), (2, 0), (1, 1), (1, 2)],
            seq![(0, 1), (1, 1), (2, 1), (2, 2)],
            seq![(1, 0), (1, 1), (0, 2), (1, 2)],
        ],
        TetrominoType::L => seq![
            seq![(2, 0), (0, 1), (1, 1), (2, 1)],
            seq![(1, 0), (1, 1), (1, 2), (2, 2)],
            seq![(0, 1), (1, 1), (2, 1), (0, 2)],
            seq![(0, 0), (1, 0), (1, 1), (1, 2)],
        ],
        TetrominoType::O => seq![
            seq![(1, 0), (2, 0), (1, 1), (2, 1)],
            seq![(1, 0), (2, 0), (1, 1), (2, 1)],
            seq![(1, 0), (2, 0), (1, 1), (2, 1)],
            seq![(1, 0), (2, 0), (1, 1), (2, 1)],
        ],
        TetrominoType::S => seq![
            seq![(1, 0), (2, 0), (0, 1), (1, 1)],
            seq![(1, 0), (1, 1), (2, 1), (2, 2)],
            seq![(1, 1), (2, 1), (0, 2), (1, 2)],
            seq![(0, 0), (0, 1), (1, 1), (1, 2)],
        ],
        TetrominoType::T => seq![
            seq![(1, 0), (0, 1), (1, 1), (2, 1)],
            seq![(1, 0), (1, 1), (2, 1), (1, 2)],
            seq![(0, 1), (1, 1), (2, 1), (1, 2)],
            seq![(1, 0), (0, 1), (1, 1), (1, 2)],
        ],
        TetrominoType::Z => seq![
            seq![(0, 0), (1, 0), (1, 1), (2, 1)],
            seq![(2, 0), (1, 1), (2, 1), (1, 2)],
            seq![(0, 1), (1, 1), (1, 2), (2, 2)],
            seq![(1, 0), (0, 1), (1, 1), (0, 2)],
        ],
    }
}

/// Offset of cell `i` (0..4) of a piece within its box.
pub open spec fn cell_offset(p: Tetromino, i: int) -> (int, int) {
    shape_table(p.t_type)[(p.rotation % 4) as int][i]
}

/// Board coordinates (column, row) of cell `i` (0..4) of a piece.
pub open spec fn block(p: Tetromino, i: int) -> (int, int) {
    (p.x + cell_offset(p, i).0, p.y + cell_offset(p, i).1)
}

/// The coordinates of all four cells of a piece fit in an `i32`.
pub open spec fn blocks_fit(p: Tetromino) -> bool {
    forall|i: int| 0 <= i < 4 ==> #[trigger] block(p, i).0 <= i32::MAX && block(p, i).1 <= i32::MAX
}

/// `(x, y)` is a board cell.
pub open spec fn on_board(x: int, y: int) -> bool {
    0 <= x < BOARD_WIDTH && 0 <= y < BOARD_HEIGHT
}

/// `(x, y)` is a board cell and nothing is locked there.
pub open spec fn cell_free(board: Board, x: int, y: int) -> bool {
    on_board(x, y) && board[y][x] is None
}

/// Every cell of the piece is a free board cell.
pub open spec fn valid_position(board: Board, p: Tetromino) -> bool {
    forall|i: int| 0 <= i < 4 ==> #[trigger] cell_free(board, block(p, i).0, block(p, i).1)
}

/// Smallest and largest column among the cells of a piece.
pub open spec fn min_block_x(p: Tetromino) -> int {
    let a = block(p, 0).0;
    let b = block(p, 1).0;
    let c = block(p, 2).0;
    let d = block(p, 3).0;
    let ab = if a <= b { a } else { b };
    let cd = if c <= d { c } else { d };
    if ab <= cd { ab } else { cd }
}

pub open spec fn max_block_x(p: Tetromino) -> int {
    let a = block(p, 0).0;
    let b = block(p, 1).0;
    let c = block(p, 2).0;
    let d = block(p, 3).0;
    let ab = if a >= b { a } else { b };
    let cd = if c >= d { c } else { d };
    if ab >= cd { ab } else { cd }
}

/// Exec copy of one rotation of `shape_table`.
fn shape_offsets(t: TetrominoType, r: usize) -> (res: [(i32, i32); 4])
    requires
        r < 4,
    ensures
        forall|i: int|
            0 <= i < 4 ==> (#[trigger] res[i]).0 == shape_table(t)[r as int][i].0 && res[i].1
                == shape_table(t)[r as int][i].1,
{
    let table: [[(i32, i32); 4]; 4] = match t {
        TetrominoType::I => [
            [(0, 1), (1, 1), (2, 1), (3, 1)],
            [(2, 0), (2, 1), (2, 2), (2, 3)],
            [(0, 2), (1, 2), (2, 2), (3, 2)],
            [(1, 0), (1, 1), (1, 2), (1, 3)],
        ],
        TetrominoType::J => [
            [(0, 0), (0, 1), (1, 1), (2, 1)],
            [(1, 0), (2, 0), (1, 1), (1, 2)],
            [(0, 1), (1, 1), (2, 1), (2, 2)],
            [(1, 0), (1, 1), (0, 2), (1, 2)],
        ],
        TetrominoType::L => [
            [(2, 0), (0, 1), (1, 1), (2, 1)],
            [(1, 0), (1, 1), (1, 2), (2, 2)],
            [(0, 1), (1, 1), (2, 1), (0, 2)],
            [(0, 0), (1, 0), (1, 1), (1, 2)],
        ],
        TetrominoType::O => [
            [(1, 0), (2, 0), (1, 1), (2, 1)],
            [(1, 0), (2, 0), (1, 1), (2, 1)],
            [(1, 0), (2, 0), (1, 1), (2, 1)],
            [(1, 0), (2, 0), (1, 1), (2, 1)],
        ],
        TetrominoType::S => [
            [(1, 0), (2, 0), (0, 1), (1, 1)],
            [(1, 0), (1, 1), (2, 1), (2, 2)],
            [(1, 1), (2, 1), (0, 2), (1, 2)],
            [(0, 0), (0, 1), (1, 1), (1, 2)],
        ],
        TetrominoType::T => [
            [(1, 0), (0, 1), (1, 1), (2, 1)],
            [(1, 0), (1, 1), (2, 1), (1, 2)],
            [(0, 1), (1, 1), (2, 1), (1, 2)],
            [(1, 0), (0, 1), (1, 1), (1, 2)],
        ],
        TetrominoType::Z => [
            [(0, 0), (1, 0), (1, 1), (2, 1)],
            [(2, 0), (1, 1), (2, 1), (1, 2)],
            [(0, 1), (1, 1), (1, 2), (2, 2)],
            [(1, 0), (0, 1), (1, 1), (0, 2)],
        ],
    };
    table[r]
}

impl Tetromino {
    /// A fresh piece of the given shape at the spawn position (column 3, row
    /// 0), unrotated and carrying no item.
    pub fn new(t_type: TetrominoType) -> (r: Self)
        ensures
            r == (Tetromino { t_type, x: 3, y: 0, rotation: 0, item: None }),
    {
        Self { t_type, x: 3, y: 0, rotation: 0, item: None }
    }

    /// Board coordinates (column, row) of the four cells of the piece.
    pub fn get_blocks(&self) -> (r: [(i32, i32); 4])
        requires
            blocks_fit(*self),
        ensures
            forall|i: int|
                0 <= i < 4 ==> (#[trigger] r[i]).0 == block(*self, i).0 && r[i].1 == block(
                    *self,
                    i,
                ).1,
    {
        let offsets = shape_offsets(self.t_type, self.rotation % 4);
        let mut final_blocks: [(i32, i32); 4] = [(0, 0); 4];
        let mut i: usize = 0;
        while i < 4
            invariant
                i <= 4,
                blocks_fit(*self),
                forall|j: int|
                    0 <= j < 4 ==> (#[trigger] offsets[j]).0 == cell_offset(*self, j).0
                        && offsets[j].1 == cell_offset(*self, j).1,
                forall|j: int|
                    0 <= j < i ==> (#[trigger] final_blocks[j]).0 == block(*self, j).0
                        && final_blocks[j].1 == block(*self, j).1,
            decreases 4 - i,
        {
            let (bx, by) = offsets[i];
            assert(block(*self, i as int).0 <= i32::MAX);
            final_blocks[i] = (self.x + bx, self.y + by);
            i = i + 1;
        }
        final_blocks
    }

    /// Board column (counting from 1) of the piece's leftmost cell.
    pub fn left_column(&self) -> (r: i32)
        requires
            blocks_fit(*self),
            min_block_x(*self) < i32::MAX,
        ensures
            r == min_block_x(*self) + 1,
    {
        let blocks = self.get_blocks();
        let mut min_x = blocks[0].0;
        let mut i: usize = 1;
        while i < 4
            invariant
                1 <= i <= 4,
                forall|j: int|
                    0 <= j < 4 ==> (#[trigger] blocks[j]).0 == block(*self, j).0 && blocks[j].1
                        == block(*self, j).1,
                min_x == min_prefix_x(*self, i as int),
            decreases 4 - i,
        {
            if blocks[i].0 < min_x {
                min_x = blocks[i].0;
            }
            i = i + 1;
        }
        proof {
            lemma_block_span(*self);
        }
        min_x + 1
    }

    /// Board column (counting from 1) of the piece's rightmost cell.
    pub fn right_column(&self) -> (r: i32)
        requires
            blocks_fit(*self),
            max_block_x(*self) < i32::MAX,
        ensures
            r == max_block_x(*self) + 1,
    {
        let blocks = self.get_blocks();
        let mut max_x = blocks[0].0;
        let mut i: usize = 1;
        while i < 4
            invariant
                1 <= i <= 4,
                forall|j: int|
                    0 <= j < 4 ==> (#[trigger] blocks[j]).0 == block(*self, j).0 && blocks[j].1
                        == block(*self, j).1,
                max_x == max_prefix_x(*self, i as int),
            decreases 4 - i,
        {
            if blocks[i].0 > max_x {
                max_x = blocks[i].0;
            }
            i = i + 1;
        }
        proof {
            lemma_block_span(*self);
        }
        max_x + 1
    }

    /// Number of columns the piece spans.
    pub fn width(&self) -> (r: i32)
        requires
            blocks_fit(*self),
            max_block_x(*self) < i32::MAX,
        ensures
            r == max_block_x(*self) - min_block_x(*self) + 1,
    {
        proof {
            lemma_block_span(*self);
        }
        self.right_column() - self.left_column() + 1
    }

    /// The five (column, row) offsets tried, in order, when rotating from
    /// `start_rot` to `end_rot`.
    pub fn get_kicks(&self, start_rot: usize, end_rot: usize) -> (r: [(i32, i32); 5])
        ensures
            forall|i: int|
                0 <= i < 5 ==> (#[trigger] r[i]).0 == kick_table(
                    self.t_type,
                    start_rot as int,
                    end_rot as int,
                )[i].0 && r[i].1 == kick_table(self.t_type, start_rot as int, end_rot as int)[i].1,
    {
        if self.t_type == TetrominoType::O {
            return [(0, 0), (0, 0), (0, 0), (0, 0), (0, 0)];
        }
        if self.t_type == TetrominoType::I {
            match (start_rot, end_rot) {
                (0, 1) => [(0, 0), (-2, 0), (1, 0), (-2, 1), (1, -2)],
                (1, 0) => [(0, 0), (2, 0), (-1, 0), (2, -1), (-1, 2)],
                (1, 2) => [(0, 0), (-1, 0), (2, 0), (-1, -2), (2, 1)],
                (2, 1) => [(0, 0), (1, 0), (-2, 0), (1, 2), (-2, -1)],
                (2, 3) => [(0, 0), (2, 0), (-1, 0), (2, -1), (-1, 2)],
                (3, 2) => [(0, 0), (-2, 0), (1, 0), (-2, 1), (1, -2)],
                (3, 0) => [(0, 0), (1, 0), (-2, 0), (1, 2), (-2, -1)],
                (0, 3) => [(0, 0), (-1, 0), (2, 0), (-1, -2), (2, 1)],
                _ => [(0, 0), (0, 0), (0, 0), (0, 0), (0, 0)],
            }
        } else {
            match (start_rot, end_rot) {
                (0, 1) => [(0, 0), (-1, 0), (-1, -1), (0, 2), (-1, 2)],
                (1, 0) => [(0, 0), (1, 0), (1, 1), (0, -2), (1, -2)],
                (1, 2) => [(0, 0), (1, 0), (1, 1), (0, -2), (1, -2)],
                (2, 1) => [(0, 0), (-1, 0), (-1, -1), (0, 2), (-1, 2)],
                (2, 3) => [(0, 0), (1, 0), (1, -1), (0, 2), (1, 2)],
                (3, 2) => [(0, 0), (-1, 0), (-1, 1), (0, -2), (-1, -2)],
                (3, 0) => [(0, 0), (-1, 0), (-1, 1), (0, -2), (-1, -2)],
                (0, 3) => [(0, 0), (1, 0), (1, -1), (0, 2), (1, 2)],
                _ => [(0, 0), (0, 0), (0, 0), (0, 0), (0, 0)],
            }
        }
    }
}

/// Smallest column among the first `n` cells of a piece.
pub open spec fn min_prefix_x(p: Tetromino, n: int) -> int
    decreases n,
{
    if n <= 1 {
        block(p, 0).0
    } else {
        let m = min_prefix_x(p, n - 1);
        if block(p, n - 1).0 < m {
            block(p, n - 1).0
        } else {
            m
        }
    }
}

/// Largest column among the first `n` cells of a piece.
pub open spec fn max_prefix_x(p: Tetromino, n: int) -> int
    decreases n,
{
    if n <= 1 {
        block(p, 0).0
    } else {
        let m = max_prefix_x(p, n - 1);
        if block(p, n - 1).0 > m {
            block(p, n - 1).0
        } else {
            m
        }
    }
}

/// The leftmost and rightmost columns of a piece are at most three apart,
/// and the prefix minimum and maximum over all four cells are the extremes.
pub proof fn lemma_block_span(p: Tetromino)
    ensures
        min_prefix_x(p, 4) == min_block_x(p),
        max_prefix_x(p, 4) == max_block_x(p),
        0 <= max_block_x(p) - min_block_x(p) <= 3,
{
    reveal_with_fuel(min_prefix_x, 4);
    reveal_with_fuel(max_prefix_x, 4);
}

/// A piece in a valid position lies within the board's columns and rows.
pub proof fn lemma_valid_on_board(board: Board, p: Tetromino)
    requires
        valid_position(board, p),
    ensures
        blocks_fit(p),
        0 <= min_block_x(p),
        max_block_x(p) < BOARD_WIDTH,
{
    assert(cell_free(board, block(p, 0).0, block(p, 0).1));
    assert(cell_free(board, block(p, 1).0, block(p, 1).1));
    assert(cell_free(board, block(p, 2).0, block(p, 2).1));
    assert(cell_free(board, block(p, 3).0, block(p, 3).1));
}

/// The wall-kick offsets tried when rotating a shape from `s` to `e`.
pub open spec fn kick_table(t: TetrominoType, s: int, e: int) -> Seq<(int, int)> {
    if t == TetrominoType::O {
        seq![(0, 0), (0, 0), (0, 0), (0, 0), (0, 0)]
    } else if t == TetrominoType::I {
        if s == 0 && e == 1 {
            seq![(0, 0), (-2, 0), (1, 0), (-2, 1), (1, -2)]
        } else if s == 1 && e == 0 {
            seq![(0, 0), (2, 0), (-1, 0), (2, -1), (-1, 2)]
        } else if s == 1 && e == 2 {
            seq![(0, 0), (-1, 0), (2, 0), (-1, -2), (2, 1)]
        } else if s == 2 && e == 1 {
            seq![(0, 0), (1, 0), (-2, 0), (1, 2), (-2, -1)]
        } else if s == 2 && e == 3 {
            seq![(0, 0), (2, 0), (-1, 0), (2, -1), (-1, 2)]
        } else if s == 3 && e == 2 {
            seq![(0, 0), (-2, 0), (1, 0), (-2, 1), (1, -2)]
        } else if s == 3 && e == 0 {
            seq![(0, 0), (1, 0), (-2, 0), (1, 2), (-2, -1)]
        } else if s == 0 && e == 3 {
            seq![(0, 0), (-1, 0), (2, 0), (-1, -2), (2, 1)]
        } else {
            seq![(0, 0), (0, 0), (0, 0), (0, 0), (0, 0)]
        }
    } else {
        if s == 0 && e == 1 {
            seq![(0, 0), (-1, 0), (-1, -1), (0, 2), (-1, 2)]
        } else if s == 1 && e == 0 {
            seq![(0, 0), (1, 0), (1, 1), (0, -2), (1, -2)]
        } else if s == 1 && e == 2 {
            seq![(0, 0), (1, 0), (1, 1), (0, -2), (1, -2)]
        } else if s == 2 && e == 1 {
            seq![(0, 0), (-1, 0), (-1, -1), (0, 2), (-1, 2)]
        } else if s == 2 && e == 3 {
            seq![(0, 0), (1, 0), (1, -1), (0, 2), (1, 2)]
        } else if s == 3 && e == 2 {
            seq![(0, 0), (-1, 0), (-1, 1), (0, -2), (-1, -2)]
        } else if s == 3 && e == 0 {
            seq![(0, 0), (-1, 0), (-1, 1), (0, -2), (-1, -2)]
        } else if s == 0 && e == 3 {
            seq![(0, 0), (1, 0), (1, -1), (0, 2), (1, 2)]
        } else {
            seq![(0, 0), (0, 0), (0, 0), (0, 0), (0, 0)]
        }
    }
}


/// What one lock (or hard drop) reports.
pub struct LockResult {
    pub cleared_lines: u32,
    pub is_t_spin: bool,
    pub b2b_bonus: bool,
    pub combo: u32,
    pub zone_lines_cleared_this_turn: u32,
    pub zone_meter_full: bool,
}

/// The whole state of one game.
#[derive(Clone, Debug)]
pub struct GameState {
    pub board: Board,
    pub item_board: ItemBoard,
    pub current_piece: Tetromino,
    pub score: u32,
    pub level: u32,
    pub total_lines: u32,
    pub is_game_over: bool,
    pub difficulty: Difficulty,
    pub hold_piece: Option<TetrominoType>,
    pub has_held: bool,
    pub bag: Vec<TetrominoType>,
    pub b2b: u32,
    pub combo: u32,
    pub last_move_was_spin: bool,
    pub lock_delay_active: bool,
    pub lock_delay_timer_ms: i32,
    pub fall_timer_ms: i32,
    pub moves_since_lock_delay: u32,
    pub is_in_zone: bool,
    pub zone_meter: u32,
    pub zone_lines_cleared: u32,
    pub zone_timer_ms: i32,
    pub inventory: Option<ItemType>,
    pub item_spawned: Option<ItemType>,
    pub item_acquired: Option<ItemType>,
}

/// The seven shapes, in the order a fresh bag is filled before shuffling.
pub open spec fn all_shapes() -> Seq<TetrominoType> {
    seq![
        TetrominoType::I,
        TetrominoType::J,
        TetrominoType::L,
        TetrominoType::O,
        TetrominoType::S,
        TetrominoType::T,
        TetrominoType::Z,
    ]
}

/// `s` holds each of the seven shapes exactly once, in some order.
pub open spec fn is_full_bag(s: Seq<TetrominoType>) -> bool {
    s.len() == 7 && s.to_multiset() == all_shapes().to_multiset()
}

/// Drawing shape `t` turns bag `before` into bag `after`: the first shape of a
/// non-empty bag is drawn; an empty bag is first refilled with a shuffled set
/// of all seven shapes.
pub open spec fn draw_from_bag(before: Seq<TetrominoType>, after: Seq<TetrominoType>, t: TetrominoType) -> bool {
    if before.len() > 0 {
        after == before.drop_first() && t == before[0]
    } else {
        is_full_bag(seq![t] + after)
    }
}

/// Percent chance that a new piece carries an item.
pub const ITEM_CHANCE_PERCENT: i32 = 15;

/// The item a new piece carries, given the roll in `0..100` and the item
/// drawn for it: the item when the roll is below 15, none otherwise.
pub open spec fn rolled_item(roll: i32, pick: ItemType) -> Option<ItemType> {
    if roll < ITEM_CHANCE_PERCENT {
        Some(pick)
    } else {
        None
    }
}

/// The item a new piece carries for a roll and a drawn item.
pub fn item_for_roll(roll: i32, pick: ItemType) -> (r: Option<ItemType>)
    ensures
        r == rolled_item(roll, pick),
{
    if roll < ITEM_CHANCE_PERCENT {
        Some(pick)
    } else {
        None
    }
}

/// `p` is a freshly spawned piece: the spawn position, unrotated, of shape `t`.
pub open spec fn spawned(p: Tetromino, t: TetrominoType) -> bool {
    p.t_type == t && p.x == 3 && p.y == 0 && p.rotation == 0
}

/// Starting fall interval of a difficulty, in milliseconds.
pub open spec fn base_speed(d: Difficulty) -> int {
    match d {
        Difficulty::Easy => 1000,
        Difficulty::Moderate => 800,
        Difficulty::Difficult => 500,
    }
}

/// `level as i32`: the level read as a two's-complement `i32`.
pub open spec fn level_as_i32(level: u32) -> int {
    if level <= i32::MAX {
        level as int
    } else {
        level - 0x1_0000_0000
    }
}

/// Fall interval before the 100 ms floor is applied.
pub open spec fn raw_speed(d: Difficulty, level: u32) -> int {
    base_speed(d) - (level_as_i32(level) - 1) * 100
}

/// The interval computation stays within `i32`.
pub open spec fn speed_fits(d: Difficulty, level: u32) -> bool {
    i32::MIN <= (level_as_i32(level) - 1) * 100 <= i32::MAX && raw_speed(d, level) <= i32::MAX
}

/// Fall interval in milliseconds: 100 ms faster per level, never below 100 ms.
pub open spec fn fall_speed(d: Difficulty, level: u32) -> int {
    if raw_speed(d, level) < 100 {
        100
    } else {
        raw_speed(d, level)
    }
}

/// The piece moved to row `y`.
pub open spec fn at_row(p: Tetromino, y: i32) -> Tetromino {
    Tetromino { t_type: p.t_type, x: p.x, y: y, rotation: p.rotation, item: p.item }
}

/// `gy` is where the piece lands when dropped straight down: every row from
/// just below its current one down to `gy` is a valid position and the next
/// row is not.
pub open spec fn landing_row(board: Board, p: Tetromino, gy: i32) -> bool {
    &&& p.y <= gy
    &&& forall|k: i32| p.y < k <= gy ==> #[trigger] valid_position(board, at_row(p, k))
    &&& gy < i32::MAX
    &&& !valid_position(board, at_row(p, (gy + 1) as i32))
}

/// The piece moved by `dx` columns and `dy` rows.
pub open spec fn shifted(p: Tetromino, dx: int, dy: int) -> Tetromino {
    Tetromino {
        t_type: p.t_type,
        x: (p.x + dx) as i32,
        y: (p.y + dy) as i32,
        rotation: p.rotation,
        item: p.item,
    }
}

/// A move by `(dx, dy)` stays within `i32`.
pub open spec fn shift_fits(p: Tetromino, dx: int, dy: int) -> bool {
    i32::MIN <= p.x + dx <= i32::MAX && i32::MIN <= p.y + dy <= i32::MAX && blocks_fit(
        shifted(p, dx, dy),
    )
}


/// The piece rotated to `end_rot` and moved by a kick offset.
pub open spec fn kicked(p: Tetromino, end_rot: usize, k: (int, int)) -> Tetromino {
    Tetromino {
        t_type: p.t_type,
        x: (p.x + k.0) as i32,
        y: (p.y + k.1) as i32,
        rotation: end_rot,
        item: p.item,
    }
}

/// Every kicked candidate stays within `i32`.
pub open spec fn kicks_fit(p: Tetromino, end_rot: usize, kicks: Seq<(int, int)>) -> bool {
    forall|i: int|
        0 <= i < kicks.len() ==> i32::MIN <= p.x + (#[trigger] kicks[i]).0 <= i32::MAX && i32::MIN
            <= p.y + kicks[i].1 <= i32::MAX && blocks_fit(kicked(p, end_rot, kicks[i]))
}

/// The first kicked candidate, trying kicks from index `i` on, that is a
/// valid position.
pub open spec fn first_valid_kick(
    board: Board,
    p: Tetromino,
    end_rot: usize,
    kicks: Seq<(int, int)>,
    i: int,
) -> Option<Tetromino>
    decreases kicks.len() - i,
{
    if i < 0 || i >= kicks.len() {
        None
    } else if valid_position(board, kicked(p, end_rot, kicks[i])) {
        Some(kicked(p, end_rot, kicks[i]))
    } else {
        first_valid_kick(board, p, end_rot, kicks, i + 1)
    }
}

/// Rotation index after a clockwise turn.
pub open spec fn rotation_cw(r: usize) -> usize {
    ((r + 1) % 4) as usize
}

/// Rotation index after a counter-clockwise turn.
pub open spec fn rotation_ccw(r: usize) -> usize {
    if r == 0 {
        3
    } else {
        (r - 1) as usize
    }
}

/// Where a rotation of the current piece to `end_rot` ends up, if any kick fits.
pub open spec fn rotation_outcome(board: Board, p: Tetromino, end_rot: usize) -> Option<Tetromino> {
    first_valid_kick(
        board,
        p,
        end_rot,
        kick_table(p.t_type, p.rotation as int, end_rot as int),
        0,
    )
}

/// A corner cell counts as blocked for T-spin detection: outside the side
/// walls, below the floor, or holding a locked cell.
pub open spec fn corner_blocked(board: Board, cx: int, cy: int) -> bool {
    cx < 0 || cx >= BOARD_WIDTH || cy >= BOARD_HEIGHT || (cy >= 0 && board[cy][cx] is Some)
}

/// Corner `i` of the 3x3 box at `(x, y)`: top-left, top-right, bottom-left,
/// bottom-right.
pub open spec fn box_corner(x: int, y: int, i: int) -> (int, int) {
    if i == 0 {
        (x, y)
    } else if i == 1 {
        (x + 2, y)
    } else if i == 2 {
        (x, y + 2)
    } else {
        (x + 2, y + 2)
    }
}

/// Number of blocked corners among the first `n` corners of the box at `(x, y)`.
pub open spec fn blocked_corners_upto(board: Board, x: int, y: int, n: int) -> int
    decreases n,
{
    if n <= 0 {
        0
    } else {
        blocked_corners_upto(board, x, y, n - 1) + if corner_blocked(
            board,
            box_corner(x, y, n - 1).0,
            box_corner(x, y, n - 1).1,
        ) {
            1int
        } else {
            0int
        }
    }
}

/// Number of blocked corners of the 3x3 box at `(x, y)`.
pub open spec fn blocked_corners(board: Board, x: int, y: int) -> int {
    blocked_corners_upto(board, x, y, 4)
}

/// A T piece that last moved by rotating, with at least three of the four
/// corners of its box blocked.
pub open spec fn t_spin(board: Board, p: Tetromino, last_move_was_spin: bool) -> bool {
    p.t_type == TetrominoType::T && last_move_was_spin && blocked_corners(board, p.x as int, p.y as int) >= 3
}

/// The T-spin check stays within `i32` when it looks at the corners.
pub open spec fn t_spin_fits(p: Tetromino, last_move_was_spin: bool) -> bool {
    (p.t_type == TetrominoType::T && last_move_was_spin) ==> (p.x + 2 <= i32::MAX && p.y + 2
        <= i32::MAX)
}

/// Score multiplier of a Zone of `lines` cleared lines.
pub open spec fn zone_multiplier(lines: int) -> int {
    if lines >= 8 {
        3
    } else if lines >= 4 {
        2
    } else {
        1
    }
}

/// Bonus awarded when a Zone that cleared `lines` lines ends.
pub open spec fn zone_bonus(lines: int, level: int) -> int {
    100 * lines * lines * zone_multiplier(lines) * level
}

/// Ending the Zone keeps the score computation within `u32`.
pub open spec fn end_zone_fits(gs: GameState) -> bool {
    (gs.is_in_zone && gs.zone_lines_cleared > 0) ==> {
        &&& 100 * gs.zone_lines_cleared * gs.zone_lines_cleared * zone_multiplier(
            gs.zone_lines_cleared as int,
        ) <= u32::MAX
        &&& gs.score + zone_bonus(gs.zone_lines_cleared as int, gs.level as int) <= u32::MAX
    }
}

/// Height of the stack in column `x`, looking from row `y` downwards: 20 minus
/// the first filled row, 0 for an empty column.
pub open spec fn column_height_from(board: Board, x: int, y: int) -> int
    decreases BOARD_HEIGHT - y,
{
    if y < 0 || y >= BOARD_HEIGHT {
        0
    } else if board[y][x] is Some {
        BOARD_HEIGHT - y
    } else {
        column_height_from(board, x, y + 1)
    }
}

/// Height of the stack in column `x`.
pub open spec fn column_height(board: Board, x: int) -> int {
    column_height_from(board, x, 0)
}

/// The tallest column among the first `n` columns (0 when `n` is 0).
pub open spec fn max_height_upto(board: Board, n: int) -> int
    decreases n,
{
    if n <= 0 {
        0
    } else {
        let m = max_height_upto(board, n - 1);
        if column_height(board, n - 1) > m {
            column_height(board, n - 1)
        } else {
            m
        }
    }
}

/// The column that the Laser clears among the first `n` columns: the first
/// one of greatest height, column 0 when every column is empty.
pub open spec fn laser_column_upto(board: Board, n: int) -> int
    decreases n,
{
    if n <= 0 {
        0
    } else {
        let c = laser_column_upto(board, n - 1);
        if column_height(board, n - 1) > max_height_upto(board, n - 1) {
            n - 1
        } else {
            c
        }
    }
}

/// Cell `(x, y)` is one of the piece's cells.
pub open spec fn occupies(p: Tetromino, x: int, y: int) -> bool {
    block(p, 0) == (x, y) || block(p, 1) == (x, y) || block(p, 2) == (x, y) || block(p, 3) == (
    x,
    y,
    )
}

/// Every cell below each cell of the landed piece `g`, down to the floor, is
/// either part of `g` or filled: dropping it leaves no hole underneath.
pub open spec fn perfect_fit(board: Board, g: Tetromino) -> bool {
    forall|i: int, cy: int|
        0 <= i < 4 && block(g, i).1 < cy < BOARD_HEIGHT && !occupies(g, block(g, i).0, cy) ==> (
        #[trigger] board[cy][block(g, i).0]) is Some
}

/// All four cells of the piece are board cells.
pub open spec fn blocks_on_board(p: Tetromino) -> bool {
    forall|i: int| 0 <= i < 4 ==> #[trigger] on_board(block(p, i).0, block(p, i).1)
}


/// The cells of a board as a grid: 20 rows of 10 cells.
pub open spec fn grid_of<A>(b: [[Option<A>; BOARD_WIDTH]; BOARD_HEIGHT]) -> Seq<Seq<Option<A>>> {
    Seq::new(BOARD_HEIGHT as nat, |y: int| Seq::new(BOARD_WIDTH as nat, |x: int| b[y][x]))
}

/// A grid with 20 rows of 10 cells.
pub open spec fn grid_shaped<A>(g: Seq<Seq<Option<A>>>) -> bool {
    g.len() == BOARD_HEIGHT && forall|y: int| 0 <= y < BOARD_HEIGHT ==> (#[trigger] g[y]).len() == BOARD_WIDTH
}

/// Every cell of board `b` is the corresponding cell of grid `g`.
pub open spec fn board_matches<A>(b: [[Option<A>; BOARD_WIDTH]; BOARD_HEIGHT], g: Seq<Seq<Option<A>>>) -> bool {
    forall|y: int, x: int| 0 <= y < BOARD_HEIGHT && 0 <= x < BOARD_WIDTH ==> #[trigger] b[y][x] == g[y][x]
}

/// A row of 10 empty cells.
pub open spec fn empty_row<A>() -> Seq<Option<A>> {
    Seq::new(BOARD_WIDTH as nat, |x: int| None)
}

/// Row `y` of the grid has no empty cell.
pub open spec fn row_full(g: Seq<Seq<Option<TetrominoType>>>, y: int) -> bool {
    forall|x: int| 0 <= x < BOARD_WIDTH ==> (#[trigger] g[y][x]) is Some
}

/// The rows from `u` to the bottom that are not full, top to bottom.
pub open spec fn kept_rows(g: Seq<Seq<Option<TetrominoType>>>, u: int) -> Seq<int>
    decreases BOARD_HEIGHT - u,
{
    if u < 0 || u >= BOARD_HEIGHT {
        seq![]
    } else if row_full(g, u) {
        kept_rows(g, u + 1)
    } else {
        seq![u] + kept_rows(g, u + 1)
    }
}

/// Number of full rows of the grid.
pub open spec fn full_row_count(g: Seq<Seq<Option<TetrominoType>>>) -> int {
    BOARD_HEIGHT - kept_rows(g, 0).len()
}

/// The rows `rows` (the board itself, or its item layer) after the full rows
/// of board grid `g` are removed: the remaining rows slide down in order and
/// empty rows fill the top.
pub open spec fn clear_grid<A>(g: Seq<Seq<Option<TetrominoType>>>, rows: Seq<Seq<Option<A>>>) -> Seq<Seq<Option<A>>> {
    let kept = kept_rows(g, 0);
    let c = BOARD_HEIGHT - kept.len();
    Seq::new(
        BOARD_HEIGHT as nat,
        |y: int|
            if y < c {
                empty_row()
            } else {
                rows[kept[y - c]]
            },
    )
}

/// The last item in the first `n` cells of a row of the item layer.
pub open spec fn last_item_upto(row: Seq<Option<ItemType>>, n: int) -> Option<ItemType>
    decreases n,
{
    if n <= 0 {
        None
    } else if row[n - 1] is Some {
        row[n - 1]
    } else {
        last_item_upto(row, n - 1)
    }
}

/// The item collected by clearing the full rows from `u` down: the last item
/// (rightmost) of the topmost full row that holds one.
pub open spec fn acquired_from(g: Seq<Seq<Option<TetrominoType>>>, ig: Seq<Seq<Option<ItemType>>>, u: int) -> Option<ItemType>
    decreases BOARD_HEIGHT - u,
{
    if u < 0 || u >= BOARD_HEIGHT {
        None
    } else if row_full(g, u) && last_item_upto(ig[u], BOARD_WIDTH as int) is Some {
        last_item_upto(ig[u], BOARD_WIDTH as int)
    } else {
        acquired_from(g, ig, u + 1)
    }
}

/// Rows part-way through clearing: `c` empty rows on top, then the `u`
/// unexamined rows of `rows`, then the kept rows from `u` down.
pub open spec fn clearing_state<A>(
    g: Seq<Seq<Option<TetrominoType>>>,
    rows: Seq<Seq<Option<A>>>,
    c: int,
    u: int,
) -> Seq<Seq<Option<A>>> {
    Seq::new(
        BOARD_HEIGHT as nat,
        |r: int|
            if r < c {
                empty_row()
            } else if r < c + u {
                rows[r - c]
            } else {
                rows[kept_rows(g, u)[r - c - u]]
            },
    )
}

/// Grids of the same shape that a board matches are equal.
pub proof fn lemma_grid_of_matches<A>(b: [[Option<A>; BOARD_WIDTH]; BOARD_HEIGHT], g: Seq<Seq<Option<A>>>)
    requires
        board_matches(b, g),
        grid_shaped(g),
    ensures
        grid_of(b) == g,
{
    assert forall|y: int| 0 <= y < BOARD_HEIGHT implies #[trigger] grid_of(b)[y] == g[y] by {
        assert(grid_of(b)[y] =~= g[y]);
    }
    assert(grid_of(b) =~= g);
}

/// The kept rows from `u` are increasing row indices in `u..20`.
pub proof fn lemma_kept_rows_range(g: Seq<Seq<Option<TetrominoType>>>, u: int)
    requires
        0 <= u <= BOARD_HEIGHT,
    ensures
        kept_rows(g, u).len() <= BOARD_HEIGHT - u,
        forall|i: int| 0 <= i < kept_rows(g, u).len() ==> u <= #[trigger] kept_rows(g, u)[i] < BOARD_HEIGHT,
    decreases BOARD_HEIGHT - u,
{
    if u < BOARD_HEIGHT {
        lemma_kept_rows_range(g, u + 1);
    }
}


/// Cell `(x, y)` is among the first `n` cells of the piece.
pub open spec fn occupies_upto(p: Tetromino, n: int, x: int, y: int) -> bool {
    (n > 0 && block(p, 0) == (x, y)) || (n > 1 && block(p, 1) == (x, y)) || (n > 2 && block(p, 2)
        == (x, y)) || (n > 3 && block(p, 3) == (x, y))
}

/// The board grid with the piece's cells filled with its shape.
pub open spec fn place_grid(g: Seq<Seq<Option<TetrominoType>>>, p: Tetromino) -> Seq<Seq<Option<TetrominoType>>> {
    Seq::new(
        BOARD_HEIGHT as nat,
        |y: int|
            Seq::new(
                BOARD_WIDTH as nat,
                |x: int|
                    if occupies(p, x, y) {
                        Some(p.t_type)
                    } else {
                        g[y][x]
                    },
            ),
    )
}

/// The item layer with the piece's item (if any) dropped into the board cell
/// of its first cell.
pub open spec fn place_item_grid(ig: Seq<Seq<Option<ItemType>>>, p: Tetromino) -> Seq<Seq<Option<ItemType>>> {
    Seq::new(
        BOARD_HEIGHT as nat,
        |y: int|
            Seq::new(
                BOARD_WIDTH as nat,
                |x: int|
                    if p.item is Some && block(p, 0) == (x, y) {
                        p.item
                    } else {
                        ig[y][x]
                    },
            ),
    )
}

/// The board once the current piece is written into it.
pub open spec fn locked_board(gs: GameState) -> Seq<Seq<Option<TetrominoType>>> {
    place_grid(grid_of(gs.board), gs.current_piece)
}

/// The item layer once the current piece is written into it.
pub open spec fn locked_items(gs: GameState) -> Seq<Seq<Option<ItemType>>> {
    place_item_grid(grid_of(gs.item_board), gs.current_piece)
}

/// Lines that locking the current piece completes.
pub open spec fn lock_lines(gs: GameState) -> int {
    full_row_count(locked_board(gs))
}

/// Locking the current piece scores a T-spin.
pub open spec fn lock_t_spin(gs: GameState) -> bool {
    t_spin(gs.board, gs.current_piece, gs.last_move_was_spin)
}

/// A clear of `n` lines outside Zone mode is scored.
pub open spec fn clear_scores(gs: GameState, n: int) -> bool {
    n > 0 && !gs.is_in_zone
}

/// A Tetris (four lines) or a T-spin clear.
pub open spec fn hard_clear(n: int, t_spin: bool) -> bool {
    n == 4 || t_spin
}

/// Base points of a clear of `n` lines.
pub open spec fn line_base(n: int, t_spin: bool) -> int {
    if n == 1 {
        if t_spin { 800 } else { 100 }
    } else if n == 2 {
        if t_spin { 1200 } else { 300 }
    } else if n == 3 {
        if t_spin { 1600 } else { 500 }
    } else if n == 4 {
        800
    } else {
        0
    }
}

/// Zone meter charge of a clear of `n` lines.
pub open spec fn meter_charge(n: int, t_spin: bool) -> int {
    (if n == 1 {
        10int
    } else if n == 2 {
        20int
    } else if n == 3 {
        30int
    } else if n == 4 {
        50int
    } else {
        0int
    }) + if t_spin {
        20int
    } else {
        0int
    }
}

/// The clear earns the back-to-back bonus: a hard clear right after another.
pub open spec fn b2b_bonus_of(gs: GameState, n: int, t_spin: bool) -> bool {
    clear_scores(gs, n) && hard_clear(n, t_spin) && gs.b2b > 0
}

/// Combo counter after a clear of `n` lines: one more for a scored clear,
/// reset by a lock that clears nothing, kept during Zone mode.
pub open spec fn combo_after(gs: GameState, n: int) -> int {
    if clear_scores(gs, n) {
        gs.combo + 1
    } else if n == 0 {
        0
    } else {
        gs.combo as int
    }
}

/// Back-to-back counter after a clear: grows with each scored hard clear and
/// is reset by any other scored clear.
pub open spec fn b2b_after(gs: GameState, n: int, t_spin: bool) -> int {
    if clear_scores(gs, n) {
        if hard_clear(n, t_spin) {
            gs.b2b + 1
        } else {
            0
        }
    } else {
        gs.b2b as int
    }
}

pub open spec fn total_lines_after(gs: GameState, n: int) -> int {
    if clear_scores(gs, n) {
        gs.total_lines + n
    } else {
        gs.total_lines as int
    }
}

/// The level after a scored clear is one more than a tenth of all lines.
pub open spec fn level_after(gs: GameState, n: int) -> int {
    if clear_scores(gs, n) {
        1 + total_lines_after(gs, n) / 10
    } else {
        gs.level as int
    }
}

/// Points before the level multiplier: the base (half again for
/// back-to-back) plus 50 per earlier step of the combo.
pub open spec fn clear_points(gs: GameState, n: int, t_spin: bool) -> int {
    line_base(n, t_spin) * (if b2b_bonus_of(gs, n, t_spin) {
        3int
    } else {
        2int
    }) / 2 + 50 * gs.combo
}

/// Points a scored clear adds: its points times the new level.
pub open spec fn clear_gain(gs: GameState, n: int, t_spin: bool) -> int {
    clear_points(gs, n, t_spin) * level_after(gs, n)
}

pub open spec fn score_after(gs: GameState, n: int, t_spin: bool) -> int {
    if clear_scores(gs, n) {
        gs.score + clear_gain(gs, n, t_spin)
    } else {
        gs.score as int
    }
}

/// The Zone meter after a scored clear, capped at 100.
pub open spec fn meter_after(gs: GameState, n: int, t_spin: bool) -> int {
    if clear_scores(gs, n) {
        let m = gs.zone_meter + meter_charge(n, t_spin);
        if m < 100 {
            m
        } else {
            100
        }
    } else {
        gs.zone_meter as int
    }
}

/// The clear fills the Zone meter.
pub open spec fn meter_filled(gs: GameState, n: int, t_spin: bool) -> bool {
    clear_scores(gs, n) && meter_after(gs, n, t_spin) == 100 && gs.zone_meter < 100
}

/// Lines counted toward the Zone bonus after the clear.
pub open spec fn zone_lines_after(gs: GameState, n: int) -> int {
    if n > 0 && gs.is_in_zone {
        gs.zone_lines_cleared + n
    } else {
        gs.zone_lines_cleared as int
    }
}

/// The Zone meter after a scored clear of `lines` lines: raised by the
/// clear's charge, but never past 100.
pub open spec fn charged_meter(meter: int, lines: int, t_spin: bool) -> int {
    let m = meter + meter_charge(lines, t_spin);
    if m < 100 {
        m
    } else {
        100
    }
}

/// Charges the Zone meter for a scored clear of `lines` lines (10, 20, 30
/// or 50 for 1 to 4 lines, 20 more for a T-spin, up to 100), and reports
/// whether this charge filled it. A meter at 100 or below stays there.
pub fn charge_zone_meter(meter: u32, lines: u32, t_spin: bool) -> (r: (u32, bool))
    requires
        meter + meter_charge(lines as int, t_spin) <= u32::MAX,
    ensures
        r.0 == charged_meter(meter as int, lines as int, t_spin),
        r.1 == (r.0 == 100 && meter < 100),
        meter <= 100 ==> r.0 <= 100,
{
    let base: u32 = if lines == 1 {
        10
    } else if lines == 2 {
        20
    } else if lines == 3 {
        30
    } else if lines == 4 {
        50
    } else {
        0
    };
    let charge = if t_spin { base + 20 } else { base };
    let sum = meter + charge;
    let m = if sum < 100 { sum } else { 100 };
    (m, m == 100 && meter < 100)
}

/// Every counter the clear updates stays within `u32`.
pub open spec fn clear_fits(gs: GameState, n: int, t_spin: bool) -> bool {
    &&& (n > 0 && gs.is_in_zone) ==> gs.zone_lines_cleared + n <= u32::MAX
    &&& clear_scores(gs, n) ==> {
        &&& gs.combo + 1 <= u32::MAX
        &&& (hard_clear(n, t_spin) ==> gs.b2b + 1 <= u32::MAX)
        &&& gs.total_lines + n <= u32::MAX
        &&& 50 * gs.combo <= u32::MAX
        &&& clear_points(gs, n, t_spin) <= u32::MAX
        &&& clear_gain(gs, n, t_spin) <= u32::MAX
        &&& gs.score + clear_gain(gs, n, t_spin) <= u32::MAX
        &&& gs.zone_meter + meter_charge(n, t_spin) <= u32::MAX
    }
}

/// The state after the counters are updated for a clear of `n` lines.
pub open spec fn scored(gs: GameState, n: int, t_spin: bool) -> GameState {
    GameState {
        score: score_after(gs, n, t_spin) as u32,
        level: level_after(gs, n) as u32,
        total_lines: total_lines_after(gs, n) as u32,
        combo: combo_after(gs, n) as u32,
        b2b: b2b_after(gs, n, t_spin) as u32,
        zone_meter: meter_after(gs, n, t_spin) as u32,
        zone_lines_cleared: zone_lines_after(gs, n) as u32,
        ..gs
    }
}

/// What a lock reports for a clear of `n` lines, given the state before it.
pub open spec fn lock_report(gs: GameState, n: int, t_spin: bool) -> LockResult {
    LockResult {
        cleared_lines: if clear_scores(gs, n) {
            n as u32
        } else {
            0
        },
        is_t_spin: t_spin,
        b2b_bonus: b2b_bonus_of(gs, n, t_spin),
        combo: combo_after(gs, n) as u32,
        zone_lines_cleared_this_turn: if n > 0 && gs.is_in_zone {
            n as u32
        } else {
            0
        },
        zone_meter_full: meter_filled(gs, n, t_spin),
    }
}

/// Locking the current piece stays within `i32` and `u32`.
pub open spec fn lock_fits(gs: GameState) -> bool {
    &&& blocks_fit(gs.current_piece)
    &&& t_spin_fits(gs.current_piece, gs.last_move_was_spin)
    &&& clear_fits(gs, lock_lines(gs), lock_t_spin(gs))
}

/// What locking the current piece of `pre` does: the piece and its item are
/// written into the board, full rows are cleared (collecting their items),
/// the clear is scored (outside Zone mode) or added to the Zone count, the
/// next piece is drawn, and the game is over if it does not fit.
pub open spec fn locked(pre: GameState, post: GameState, r: LockResult) -> bool {
    let pb = locked_board(pre);
    let pi = locked_items(pre);
    let acq = acquired_from(pb, pi, 0);
    let n = lock_lines(pre);
    let ts = lock_t_spin(pre);
    &&& board_matches(post.board, clear_grid(pb, pb))
    &&& board_matches(post.item_board, clear_grid(pb, pi))
    &&& spawned(post.current_piece, post.current_piece.t_type)
    &&& draw_from_bag(pre.bag@, post.bag@, post.current_piece.t_type)
    &&& post == GameState {
        board: post.board,
        item_board: post.item_board,
        current_piece: post.current_piece,
        bag: post.bag,
        item_spawned: post.current_piece.item,
        item_acquired: acq,
        inventory: if acq is Some {
            acq
        } else {
            pre.inventory
        },
        is_game_over: pre.is_game_over || !valid_position(post.board, post.current_piece),
        has_held: false,
        lock_delay_active: false,
        ..scored(pre, n, ts)
    }
    &&& r == lock_report(pre, n, ts)
}


/// Rows of column `x` among the top `n` rows that hold a locked cell, from the
/// lowest to the highest.
pub open spec fn filled_rows_desc(b: Board, x: int, n: int) -> Seq<int>
    decreases n,
{
    if n <= 0 {
        seq![]
    } else if b[n - 1][x] is Some {
        seq![n - 1] + filled_rows_desc(b, x, n - 1)
    } else {
        filled_rows_desc(b, x, n - 1)
    }
}

/// The board cell `(x, y)` after the Magnet: each column's locked cells fall,
/// keeping their order, until they rest on the floor or on each other.
pub open spec fn magnet_cell(b: Board, x: int, y: int) -> Option<TetrominoType> {
    let s = filled_rows_desc(b, x, BOARD_HEIGHT as int);
    if y >= BOARD_HEIGHT - s.len() {
        b[s[BOARD_HEIGHT - 1 - y]][x]
    } else {
        None
    }
}

/// The item-layer cell `(x, y)` after the Magnet: items move with the locked
/// cell they sit in; a moved cell leaves no item behind; items in empty cells
/// that nothing falls onto stay.
pub open spec fn magnet_item(b: Board, ib: ItemBoard, x: int, y: int) -> Option<ItemType> {
    let s = filled_rows_desc(b, x, BOARD_HEIGHT as int);
    if y >= BOARD_HEIGHT - s.len() {
        ib[s[BOARD_HEIGHT - 1 - y]][x]
    } else if b[y][x] is Some {
        None
    } else {
        ib[y][x]
    }
}

/// The rows after the Nuke: the bottom four rows are removed and everything
/// above falls four rows.
pub open spec fn nuke_grid<A>(g: Seq<Seq<Option<A>>>) -> Seq<Seq<Option<A>>> {
    Seq::new(
        BOARD_HEIGHT as nat,
        |y: int|
            if y < 4 {
                empty_row()
            } else {
                g[y - 4]
            },
    )
}

/// The rows after the Laser empties column `col`.
pub open spec fn laser_grid<A>(g: Seq<Seq<Option<A>>>, col: int) -> Seq<Seq<Option<A>>> {
    Seq::new(
        BOARD_HEIGHT as nat,
        |y: int|
            Seq::new(
                BOARD_WIDTH as nat,
                |x: int|
                    if x == col {
                        None
                    } else {
                        g[y][x]
                    },
            ),
    )
}

/// `filled_rows_desc` over the top `m` rows is the filled rows of rows
/// `n..m` (lowest first) followed by `filled_rows_desc` over the top `n`.
pub proof fn lemma_filled_rows_split(b: Board, x: int, m: int, n: int)
    requires
        0 <= n <= m,
    ensures
        filled_rows_desc(b, x, n).len() <= filled_rows_desc(b, x, m).len(),
        filled_rows_desc(b, x, m).len() - filled_rows_desc(b, x, n).len() <= m - n,
        forall|j: int|
            0 <= j < filled_rows_desc(b, x, n).len() ==> filled_rows_desc(b, x, m)[filled_rows_desc(
                b,
                x,
                m,
            ).len() - filled_rows_desc(b, x, n).len() + j] == #[trigger] filled_rows_desc(b, x, n)[j],
    decreases m - n,
{
    if m > n {
        lemma_filled_rows_split(b, x, m - 1, n);
    }
}


/// `filled_rows_desc` of a column depends only on that column.
pub proof fn lemma_filled_rows_column_only(b1: Board, b2: Board, x: int, n: int)
    requires
        forall|y: int| 0 <= y < BOARD_HEIGHT ==> b1[y][x] == b2[y][x],
        n <= BOARD_HEIGHT,
    ensures
        filled_rows_desc(b1, x, n) == filled_rows_desc(b2, x, n),
    decreases n,
{
    if n > 0 {
        lemma_filled_rows_column_only(b1, b2, x, n - 1);
    }
}

/// The Magnet's effect on a column depends only on that column.
pub proof fn lemma_magnet_column_only(b1: Board, ib1: ItemBoard, b2: Board, ib2: ItemBoard, x: int, y: int)
    requires
        forall|r: int| 0 <= r < BOARD_HEIGHT ==> b1[r][x] == b2[r][x] && ib1[r][x] == ib2[r][x],
        0 <= y < BOARD_HEIGHT,
    ensures
        magnet_cell(b1, x, y) == magnet_cell(b2, x, y),
        magnet_item(b1, ib1, x, y) == magnet_item(b2, ib2, x, y),
{
    lemma_filled_rows_column_only(b1, b2, x, BOARD_HEIGHT as int);
    lemma_filled_rows_split(b1, x, BOARD_HEIGHT as int, 0);
    let s = filled_rows_desc(b1, x, BOARD_HEIGHT as int);
    lemma_filled_rows_range(b1, x, BOARD_HEIGHT as int);
    if y >= BOARD_HEIGHT - s.len() {
        assert(0 <= s[BOARD_HEIGHT - 1 - y] < BOARD_HEIGHT);
    }
}

/// The filled rows of the top `n` rows are rows `0..n`.
pub proof fn lemma_filled_rows_range(b: Board, x: int, n: int)
    requires
        n <= BOARD_HEIGHT,
    ensures
        forall|j: int| 0 <= j < filled_rows_desc(b, x, n).len() ==> 0 <= #[trigger] filled_rows_desc(b, x, n)[j] < n,
    decreases n,
{
    if n > 0 {
        lemma_filled_rows_range(b, x, n - 1);
        let f = filled_rows_desc(b, x, n);
        let g = filled_rows_desc(b, x, n - 1);
        if b[n - 1][x] is Some {
            assert forall|j: int| 0 <= j < f.len() implies 0 <= #[trigger] f[j] < n by {
                if j > 0 {
                    assert(f[j] == g[j - 1]);
                }
            }
        }
    }
}

/// The piece at the row where it lands.
pub open spec fn landing_y(board: Board, p: Tetromino) -> i32 {
    choose|gy: i32| landing_row(board, p, gy)
}

/// The state with the current piece dropped to row `gy`.
pub open spec fn dropped(gs: GameState, gy: i32) -> GameState {
    GameState { current_piece: at_row(gs.current_piece, gy), ..gs }
}

/// At most one row is a landing row.
pub proof fn lemma_landing_unique(board: Board, p: Tetromino, a: i32, b: i32)
    requires
        landing_row(board, p, a),
        landing_row(board, p, b),
    ensures
        a == b,
{
    if a < b {
        assert(valid_position(board, at_row(p, (a + 1) as i32)));
    } else if b < a {
        assert(valid_position(board, at_row(p, (b + 1) as i32)));
    }
}


/// `post` and `r` are the game and report after a hold request on `pre`:
/// refused (nothing changes) once a hold was used for this piece; otherwise
/// the current shape goes on hold and the previously held shape comes back as
/// a fresh piece, or, with the slot empty, the next piece is drawn.
pub open spec fn held(pre: GameState, post: GameState, r: Option<(bool, TetrominoType, TetrominoType)>) -> bool {
    &&& pre.has_held ==> r is None && post == pre
    &&& !pre.has_held ==> r == Some(
        (pre.hold_piece is Some, pre.current_piece.t_type, post.current_piece.t_type),
    ) && match pre.hold_piece {
        Some(h) => post == (GameState {
            hold_piece: Some(pre.current_piece.t_type),
            current_piece: Tetromino { t_type: h, x: 3, y: 0, rotation: 0, item: None },
            has_held: true,
            ..pre
        }),
        None => spawned(post.current_piece, post.current_piece.t_type) && draw_from_bag(
            pre.bag@,
            post.bag@,
            post.current_piece.t_type,
        ) && post == (GameState {
            hold_piece: Some(pre.current_piece.t_type),
            current_piece: post.current_piece,
            has_held: true,
            bag: post.bag,
            item_spawned: post.current_piece.item,
            ..pre
        }),
    }
}

/// `post` is `pre` after using the item in its inventory, `r` the item used:
/// the inventory empties; the Magnet drops every column, the Nuke removes the
/// bottom four rows, the Laser empties the tallest column; with no item
/// nothing changes.
pub open spec fn item_used(pre: GameState, post: GameState, r: Option<ItemType>) -> bool {
    &&& r == pre.inventory
    &&& pre.inventory is None ==> post == pre
    &&& pre.inventory is Some ==> post == (GameState {
        board: post.board,
        item_board: post.item_board,
        inventory: None,
        ..pre
    })
    &&& pre.inventory == Some(ItemType::Magnet) ==> forall|y: int, x: int|
        0 <= y < BOARD_HEIGHT && 0 <= x < BOARD_WIDTH ==> #[trigger] post.board[y][x] == magnet_cell(
            pre.board,
            x,
            y,
        )
    &&& pre.inventory == Some(ItemType::Magnet) ==> forall|y: int, x: int|
        0 <= y < BOARD_HEIGHT && 0 <= x < BOARD_WIDTH ==> #[trigger] post.item_board[y][x] == magnet_item(
            pre.board,
            pre.item_board,
            x,
            y,
        )
    &&& pre.inventory == Some(ItemType::Nuke) ==> board_matches(post.board, nuke_grid(grid_of(pre.board)))
        && board_matches(post.item_board, nuke_grid(grid_of(pre.item_board)))
    &&& pre.inventory == Some(ItemType::Laser) ==> board_matches(
        post.board,
        laser_grid(grid_of(pre.board), laser_column_upto(pre.board, BOARD_WIDTH as int)),
    ) && board_matches(
        post.item_board,
        laser_grid(grid_of(pre.item_board), laser_column_upto(pre.board, BOARD_WIDTH as int)),
    )
}

/// `gs` is a new game of difficulty `d`: empty board and item layer, score 0
/// at level 1, nothing held, no item, Zone meter empty, and the first piece
/// drawn from a freshly shuffled bag of all seven shapes.
pub open spec fn new_game(gs: GameState, d: Difficulty) -> bool {
    &&& forall|y: int, x: int| 0 <= y < BOARD_HEIGHT && 0 <= x < BOARD_WIDTH ==> (#[trigger] gs.board[y][x]) is None
    &&& forall|y: int, x: int| 0 <= y < BOARD_HEIGHT && 0 <= x < BOARD_WIDTH ==> (#[trigger] gs.item_board[y][x]) is None
    &&& spawned(gs.current_piece, gs.current_piece.t_type)
    &&& is_full_bag(seq![gs.current_piece.t_type] + gs.bag@)
    &&& gs.item_spawned == gs.current_piece.item
    &&& gs.score == 0 && gs.level == 1 && gs.total_lines == 0 && !gs.is_game_over
    &&& gs.difficulty == d
    &&& gs.hold_piece is None && !gs.has_held
    &&& gs.b2b == 0 && gs.combo == 0 && !gs.last_move_was_spin
    &&& !gs.lock_delay_active && gs.lock_delay_timer_ms == 0 && gs.fall_timer_ms == 0
    &&& gs.moves_since_lock_delay == 0
    &&& !gs.is_in_zone && gs.zone_meter == 0 && gs.zone_lines_cleared == 0 && gs.zone_timer_ms == 0
    &&& gs.inventory is None && gs.item_acquired is None
}


/// Length of every kick table.
pub proof fn lemma_kick_table_len(t: TetrominoType, s: int, e: int)
    ensures
        kick_table(t, s, e).len() == 5,
{
}

/// Whether every cell of `p` has coordinates that fit in an `i32`.
pub fn blocks_fit_check(p: &Tetromino) -> (r: bool)
    ensures
        r == blocks_fit(*p),
{
    let offsets = shape_offsets(p.t_type, p.rotation % 4);
    let mut i: usize = 0;
    while i < 4
        invariant
            i <= 4,
            forall|j: int|
                0 <= j < 4 ==> (#[trigger] offsets[j]).0 == cell_offset(*p, j).0 && offsets[j].1 == cell_offset(*p, j).1,
            forall|j: int| 0 <= j < i ==> #[trigger] block(*p, j).0 <= i32::MAX && block(*p, j).1 <= i32::MAX,
        decreases 4 - i,
    {
        let (ox, oy) = offsets[i];
        if (p.x as i64) + (ox as i64) > 2147483647 || (p.y as i64) + (oy as i64) > 2147483647 {
            assert(!(block(*p, i as int).0 <= i32::MAX && block(*p, i as int).1 <= i32::MAX));
            assert(!blocks_fit(*p));
            return false;
        }
        i = i + 1;
    }
    true
}

/// Whether moving `p` by (`dx`, `dy`) stays within `i32` (see `shift_fits`).
pub fn shift_fits_check(p: &Tetromino, dx: i32, dy: i32) -> (r: bool)
    ensures
        r == shift_fits(*p, dx as int, dy as int),
{
    let nx = (p.x as i64) + (dx as i64);
    let ny = (p.y as i64) + (dy as i64);
    if nx < -2147483648 || nx > 2147483647 || ny < -2147483648 || ny > 2147483647 {
        return false;
    }
    let q = Tetromino { t_type: p.t_type, x: nx as i32, y: ny as i32, rotation: p.rotation, item: p.item };
    assert(q == shifted(*p, dx as int, dy as int));
    blocks_fit_check(&q)
}

/// Whether every kicked candidate of a rotation of `p` to `end_rot` stays
/// within `i32` (see `kicks_fit`).
pub fn kicks_fit_check(p: &Tetromino, end_rot: usize) -> (r: bool)
    ensures
        r == kicks_fit(*p, end_rot, kick_table(p.t_type, p.rotation as int, end_rot as int)),
{
    let kicks = p.get_kicks(p.rotation, end_rot);
    let ghost table = kick_table(p.t_type, p.rotation as int, end_rot as int);
    proof {
        lemma_kick_table_len(p.t_type, p.rotation as int, end_rot as int);
    }
    let mut i: usize = 0;
    while i < 5
        invariant
            i <= 5,
            table.len() == 5,
            table == kick_table(p.t_type, p.rotation as int, end_rot as int),
            forall|j: int| 0 <= j < 5 ==> (#[trigger] kicks[j]).0 == table[j].0 && kicks[j].1 == table[j].1,
            forall|j: int|
                0 <= j < i ==> i32::MIN <= p.x + (#[trigger] table[j]).0 <= i32::MAX && i32::MIN <= p.y + table[j].1
                    <= i32::MAX && blocks_fit(kicked(*p, end_rot, table[j])),
        decreases 5 - i,
    {
        let (kx, ky) = kicks[i];
        let nx = (p.x as i64) + (kx as i64);
        let ny = (p.y as i64) + (ky as i64);
        if nx < -2147483648 || nx > 2147483647 || ny < -2147483648 || ny > 2147483647 {
            assert(kicks[i as int].0 == table[i as int].0);
            return false;
        }
        let q = Tetromino { t_type: p.t_type, x: nx as i32, y: ny as i32, rotation: end_rot, item: p.item };
        assert(q == kicked(*p, end_rot, table[i as int]));
        if !blocks_fit_check(&q) {
            return false;
        }
        i = i + 1;
    }
    true
}

/// Whether the column numbers of `p` (see `Tetromino::left_column`,
/// `right_column` and `width`) can be computed within `i32`.
pub fn columns_fit_check(p: &Tetromino) -> (r: bool)
    ensures
        r == (blocks_fit(*p) && max_block_x(*p) < i32::MAX),
{
    if !blocks_fit_check(p) {
        return false;
    }
    let offsets = shape_offsets(p.t_type, p.rotation % 4);
    let mut i: usize = 0;
    while i < 4
        invariant
            i <= 4,
            blocks_fit(*p),
            forall|j: int|
                0 <= j < 4 ==> (#[trigger] offsets[j]).0 == cell_offset(*p, j).0 && offsets[j].1 == cell_offset(*p, j).1,
            forall|j: int| 0 <= j < i ==> #[trigger] block(*p, j).0 < i32::MAX,
        decreases 4 - i,
    {
        let (ox, _oy) = offsets[i];
        if (p.x as i64) + (ox as i64) >= 2147483647 {
            assert(block(*p, i as int).0 >= i32::MAX);
            return false;
        }
        i = i + 1;
    }
    true
}

/// Whether the counters a clear of `n` lines updates stay within `u32` (see
/// `clear_fits`).
pub fn clear_fits_check(gs: &GameState, n: u32, t_spin: bool) -> (r: bool)
    requires
        n <= BOARD_HEIGHT,
    ensures
        r == clear_fits(*gs, n as int, t_spin),
{
    if n > 0 && gs.is_in_zone && (gs.zone_lines_cleared as u64) + (n as u64) > 4294967295 {
        return false;
    }
    if !(n > 0 && !gs.is_in_zone) {
        return true;
    }
    let hard = n == 4 || t_spin;
    if (gs.combo as u64) + 1 > 4294967295 {
        return false;
    }
    if hard && (gs.b2b as u64) + 1 > 4294967295 {
        return false;
    }
    if (gs.total_lines as u64) + (n as u64) > 4294967295 {
        return false;
    }
    if 50 * (gs.combo as u64) > 4294967295 {
        return false;
    }
    let base: u64 = if n == 1 {
        if t_spin { 800 } else { 100 }
    } else if n == 2 {
        if t_spin { 1200 } else { 300 }
    } else if n == 3 {
        if t_spin { 1600 } else { 500 }
    } else if n == 4 {
        800
    } else {
        0
    };
    let mult: u64 = if hard && gs.b2b > 0 { 3 } else { 2 };
    let points: u64 = base * mult / 2 + 50 * (gs.combo as u64);
    assert(points == clear_points(*gs, n as int, t_spin));
    if points > 4294967295 {
        return false;
    }
    let level: u64 = 1 + ((gs.total_lines as u64) + (n as u64)) / 10;
    assert(level == level_after(*gs, n as int));
    proof {
        assert(points * level <= 4294967295 * 4294967296) by (nonlinear_arith)
            requires
                points <= 4294967295,
                level <= 4294967296,
        ;
    }
    let gain: u128 = (points as u128) * (level as u128);
    assert(gain == clear_gain(*gs, n as int, t_spin));
    if gain > 4294967295 {
        return false;
    }
    if (gs.score as u128) + gain > 4294967295 {
        return false;
    }
    let charge: u64 = (if n == 1 {
        10
    } else if n == 2 {
        20
    } else if n == 3 {
        30
    } else if n == 4 {
        50
    } else {
        0
    }) + if t_spin {
        20
    } else {
        0
    };
    assert(charge == meter_charge(n as int, t_spin));
    (gs.zone_meter as u64) + charge <= 4294967295
}

/// Locking only looks at the board, the piece, the spin flag and the
/// counters that a clear updates.
pub proof fn lemma_lock_fits_fields(a: GameState, b: GameState)
    requires
        a.board == b.board,
        a.current_piece == b.current_piece,
        a.last_move_was_spin == b.last_move_was_spin,
        a.is_in_zone == b.is_in_zone,
        a.zone_lines_cleared == b.zone_lines_cleared,
        a.combo == b.combo,
        a.b2b == b.b2b,
        a.total_lines == b.total_lines,
        a.level == b.level,
        a.score == b.score,
        a.zone_meter == b.zone_meter,
    ensures
        lock_fits(a) == lock_fits(b),
{
    assert(locked_board(a) == locked_board(b));
}

impl GameState {
    /// Whether locking the current piece keeps every coordinate and counter
    /// within its integer type (see `lock_fits`).
    pub fn lock_fits_check(&self) -> (r: bool)
        ensures
            r == lock_fits(*self),
    {
        let p = self.current_piece;
        if !blocks_fit_check(&p) {
            return false;
        }
        if p.t_type == TetrominoType::T && self.last_move_was_spin && ((p.x as i64) + 2 > 2147483647 || (p.y as i64)
            + 2 > 2147483647) {
            return false;
        }
        let t_spin = self.is_t_spin();
        let mut scratch = GameState {
            board: self.board,
            item_board: self.item_board,
            current_piece: p,
            score: 0,
            level: 1,
            total_lines: 0,
            is_game_over: false,
            difficulty: self.difficulty,
            hold_piece: None,
            has_held: false,
            bag: Vec::new(),
            b2b: 0,
            combo: 0,
            last_move_was_spin: false,
            lock_delay_active: false,
            lock_delay_timer_ms: 0,
            fall_timer_ms: 0,
            moves_since_lock_delay: 0,
            is_in_zone: false,
            zone_meter: 0,
            zone_lines_cleared: 0,
            zone_timer_ms: 0,
            inventory: None,
            item_spawned: None,
            item_acquired: None,
        };
        let ghost before = scratch;
        scratch.place_current_piece();
        proof {
            assert(locked_board(before) == locked_board(*self));
            lemma_grid_of_matches(scratch.board, locked_board(*self));
        }
        let n = scratch.clear_lines();
        proof {
            lemma_kept_rows_range(locked_board(*self), 0);
        }
        clear_fits_check(self, n, t_spin)
    }

    /// Fall interval of the current level and difficulty, in milliseconds.
    pub fn current_speed_ms(&self) -> (r: i32)
        requires
            speed_fits(self.difficulty, self.level),
        ensures
            r == fall_speed(self.difficulty, self.level),
    {
        let base_speed: i32 = match self.difficulty {
            Difficulty::Easy => 1000,
            Difficulty::Moderate => 800,
            Difficulty::Difficult => 500,
        };
        let level: i32 = if self.level <= 2147483647 {
            self.level as i32
        } else {
            ((self.level - 2147483648) as i32) - 2147483647 - 1
        };
        let mut speed = base_speed - ((level - 1) * 100);
        if speed < 100 {
            speed = 100;
        }
        speed
    }

    /// Appends a shuffled set of all seven shapes to the bag.
    pub fn fill_bag(&mut self)
        ensures
            final(self).bag@.len() == old(self).bag@.len() + 7,
            final(self).bag@.subrange(0, old(self).bag@.len() as int) == old(self).bag@,
            is_full_bag(final(self).bag@.subrange(old(self).bag@.len() as int, final(self).bag@.len() as int)),
            *final(self) == (GameState { bag: final(self).bag, ..*old(self) }),
    {
        let mut types = vec![
            TetrominoType::I,
            TetrominoType::J,
            TetrominoType::L,
            TetrominoType::O,
            TetrominoType::S,
            TetrominoType::T,
            TetrominoType::Z,
        ];
        assert(types@ == all_shapes());
        let mut rng = thread_rng();
        shuffle_shapes(&mut types, &mut rng);
        let ghost shuffled = types@;
        self.bag.append(&mut types);
        assert(self.bag@.subrange(old(self).bag@.len() as int, self.bag@.len() as int) =~= shuffled);
        assert(self.bag@.subrange(0, old(self).bag@.len() as int) =~= old(self).bag@);
    }

    /// Draws the next shape from the bag (refilling an empty bag first) as a
    /// freshly spawned piece. A roll in `0..100` and a random item are drawn;
    /// the piece carries that item when the roll is below 15 (see
    /// `item_for_roll`), and `item_spawned` records the item (or its absence).
    pub fn next_piece(&mut self) -> (r: Tetromino)
        ensures
            spawned(r, r.t_type),
            draw_from_bag(old(self).bag@, final(self).bag@, r.t_type),
            *final(self) == (GameState { bag: final(self).bag, item_spawned: r.item, ..*old(self) }),
            exists|roll: i32, pick: ItemType| 0 <= roll < 100 && r.item == #[trigger] rolled_item(roll, pick),
    {
        if self.bag.is_empty() {
            self.fill_bag();
            assert(self.bag@ =~= self.bag@.subrange(0, 7));
        }
        let ghost filled = self.bag@;
        let t_type = self.bag.remove(0);
        proof {
            if old(self).bag@.len() == 0 {
                assert(seq![t_type] + self.bag@ =~= filled);
            }
        }
        let mut piece = Tetromino::new(t_type);
        let mut rng = thread_rng();
        let roll = gen_below(&mut rng, 100);
        let items = [ItemType::Magnet, ItemType::Nuke, ItemType::Laser];
        let pick = match choose_item(items.as_slice(), &mut rng) {
            Some(item) => *item,
            None => ItemType::Magnet,
        };
        piece.item = item_for_roll(roll, pick);
        self.item_spawned = piece.item;
        assert(piece.item == rolled_item(roll, pick));
        piece
    }

    /// Whether every cell of `piece` is a free board cell.
    pub fn is_valid_position(&self, piece: &Tetromino) -> (r: bool)
        requires
            blocks_fit(*piece),
        ensures
            r == valid_position(self.board, *piece),
    {
        let blocks = piece.get_blocks();
        let mut i: usize = 0;
        while i < 4
            invariant
                i <= 4,
                forall|j: int|
                    0 <= j < 4 ==> (#[trigger] blocks[j]).0 == block(*piece, j).0 && blocks[j].1
                        == block(*piece, j).1,
                forall|j: int| 0 <= j < i ==> #[trigger] cell_free(self.board, block(*piece, j).0, block(*piece, j).1),
            decreases 4 - i,
        {
            let (x, y) = blocks[i];
            if x < 0 || x >= BOARD_WIDTH as i32 || y < 0 || y >= BOARD_HEIGHT as i32 {
                assert(!cell_free(self.board, block(*piece, i as int).0, block(*piece, i as int).1));
                return false;
            }
            if self.board[y as usize][x as usize].is_some() {
                assert(!cell_free(self.board, block(*piece, i as int).0, block(*piece, i as int).1));
                return false;
            }
            i = i + 1;
        }
        true
    }

    /// Whether the current piece could move down one row.
    pub fn can_move_down(&self) -> (r: bool)
        requires
            shift_fits(self.current_piece, 0, 1),
        ensures
            r == valid_position(self.board, shifted(self.current_piece, 0, 1)),
    {
        let mut new_piece = self.current_piece;
        new_piece.y = new_piece.y + 1;
        assert(new_piece == shifted(self.current_piece, 0, 1));
        self.is_valid_position(&new_piece)
    }

    /// Row where the current piece would land if dropped straight down.
    pub fn get_ghost_y(&self) -> (r: i32)
        requires
            self.current_piece.y < i32::MAX,
            blocks_fit(at_row(self.current_piece, (self.current_piece.y + 1) as i32)),
        ensures
            landing_row(self.board, self.current_piece, r),
    {
        let ghost cur = self.current_piece;
        let mut ghost_piece = self.current_piece;
        loop
            invariant_except_break
                ghost_piece == at_row(cur, ghost_piece.y),
                cur.y <= ghost_piece.y < i32::MAX,
                blocks_fit(at_row(cur, (ghost_piece.y + 1) as i32)),
                forall|k: i32| cur.y < k <= ghost_piece.y ==> #[trigger] valid_position(self.board, at_row(cur, k)),
            ensures
                landing_row(self.board, cur, ghost_piece.y),
            decreases 20 - ghost_piece.y,
        {
            let below = Tetromino { y: ghost_piece.y + 1, ..ghost_piece };
            if !self.is_valid_position(&below) {
                break;
            }
            proof {
                let next = at_row(cur, (ghost_piece.y + 1) as i32);
                assert(below == next);
                assert(cell_free(self.board, block(next, 0).0, block(next, 0).1));
                assert(cell_free(self.board, block(next, 1).0, block(next, 1).1));
                assert(cell_free(self.board, block(next, 2).0, block(next, 2).1));
                assert(cell_free(self.board, block(next, 3).0, block(next, 3).1));
            }
            ghost_piece.y = ghost_piece.y + 1;
        }
        ghost_piece.y
    }

    /// Moves the current piece by `(dx, dy)` if the new position is valid.
    /// A sideways or downward move clears the "last move was a rotation" flag.
    pub fn move_piece(&mut self, dx: i32, dy: i32) -> (r: bool)
        requires
            shift_fits(old(self).current_piece, dx as int, dy as int),
        ensures
            r == valid_position(old(self).board, shifted(old(self).current_piece, dx as int, dy as int)),
            r ==> *final(self) == (GameState {
                current_piece: shifted(old(self).current_piece, dx as int, dy as int),
                last_move_was_spin: if dx != 0 || dy > 0 {
                    false
                } else {
                    old(self).last_move_was_spin
                },
                ..*old(self)
            }),
            !r ==> *final(self) == *old(self),
    {
        let mut new_piece = self.current_piece;
        new_piece.x = new_piece.x + dx;
        new_piece.y = new_piece.y + dy;
        if self.is_valid_position(&new_piece) {
            self.current_piece = new_piece;
            if dx != 0 || dy > 0 {
                self.last_move_was_spin = false;
            }
            true
        } else {
            false
        }
    }

    /// Tries the kicks from `start_rot` to `end_rot` in order and moves the
    /// piece to the first candidate that fits.
    fn try_rotation(&mut self, end_rot: usize) -> (r: bool)
        requires
            kicks_fit(
                old(self).current_piece,
                end_rot,
                kick_table(
                    old(self).current_piece.t_type,
                    old(self).current_piece.rotation as int,
                    end_rot as int,
                ),
            ),
        ensures
            r == rotation_outcome(old(self).board, old(self).current_piece, end_rot) is Some,
            match rotation_outcome(old(self).board, old(self).current_piece, end_rot) {
                Some(c) => *final(self) == (GameState {
                    current_piece: c,
                    last_move_was_spin: true,
                    ..*old(self)
                }),
                None => *final(self) == *old(self),
            },
    {
        let start_rot = self.current_piece.rotation;
        let kicks = self.current_piece.get_kicks(start_rot, end_rot);
        let ghost table = kick_table(self.current_piece.t_type, start_rot as int, end_rot as int);
        let mut i: usize = 0;
        while i < 5
            invariant
                i <= 5,
                *self == *old(self),
                table == kick_table(self.current_piece.t_type, start_rot as int, end_rot as int),
                start_rot == self.current_piece.rotation,
                table.len() == 5,
                kicks_fit(self.current_piece, end_rot, table),
                forall|j: int|
                    0 <= j < 5 ==> (#[trigger] kicks[j]).0 == table[j].0 && kicks[j].1 == table[j].1,
                first_valid_kick(self.board, self.current_piece, end_rot, table, 0)
                    == first_valid_kick(self.board, self.current_piece, end_rot, table, i as int),
            decreases 5 - i,
        {
            let (kx, ky) = kicks[i];
            let mut test_piece = self.current_piece;
            test_piece.rotation = end_rot;
            test_piece.x = test_piece.x + kx;
            test_piece.y = test_piece.y + ky;
            assert(test_piece == kicked(self.current_piece, end_rot, table[i as int]));
            if self.is_valid_position(&test_piece) {
                self.current_piece = test_piece;
                self.last_move_was_spin = true;
                return true;
            }
            i = i + 1;
        }
        false
    }

    /// Rotates the current piece clockwise, trying the wall kicks in order.
    pub fn rotate_piece(&mut self) -> (r: bool)
        requires
            old(self).current_piece.rotation < usize::MAX,
            kicks_fit(
                old(self).current_piece,
                rotation_cw(old(self).current_piece.rotation),
                kick_table(
                    old(self).current_piece.t_type,
                    old(self).current_piece.rotation as int,
                    rotation_cw(old(self).current_piece.rotation) as int,
                ),
            ),
        ensures
            r == rotation_outcome(
                old(self).board,
                old(self).current_piece,
                rotation_cw(old(self).current_piece.rotation),
            ) is Some,
            match rotation_outcome(
                old(self).board,
                old(self).current_piece,
                rotation_cw(old(self).current_piece.rotation),
            ) {
                Some(c) => *final(self) == (GameState {
                    current_piece: c,
                    last_move_was_spin: true,
                    ..*old(self)
                }),
                None => *final(self) == *old(self),
            },
    {
        let end_rot = (self.current_piece.rotation + 1) % 4;
        self.try_rotation(end_rot)
    }

    /// Rotates the current piece counter-clockwise, trying the wall kicks in order.
    pub fn rotate_piece_ccw(&mut self) -> (r: bool)
        requires
            kicks_fit(
                old(self).current_piece,
                rotation_ccw(old(self).current_piece.rotation),
                kick_table(
                    old(self).current_piece.t_type,
                    old(self).current_piece.rotation as int,
                    rotation_ccw(old(self).current_piece.rotation) as int,
                ),
            ),
        ensures
            r == rotation_outcome(
                old(self).board,
                old(self).current_piece,
                rotation_ccw(old(self).current_piece.rotation),
            ) is Some,
            match rotation_outcome(
                old(self).board,
                old(self).current_piece,
                rotation_ccw(old(self).current_piece.rotation),
            ) {
                Some(c) => *final(self) == (GameState {
                    current_piece: c,
                    last_move_was_spin: true,
                    ..*old(self)
                }),
                None => *final(self) == *old(self),
            },
    {
        let start_rot = self.current_piece.rotation;
        let end_rot = if start_rot == 0 {
            3
        } else {
            start_rot - 1
        };
        self.try_rotation(end_rot)
    }

    /// Whether locking the current piece now scores a T-spin.
    pub fn is_t_spin(&self) -> (r: bool)
        requires
            t_spin_fits(self.current_piece, self.last_move_was_spin),
        ensures
            r == t_spin(self.board, self.current_piece, self.last_move_was_spin),
    {
        if self.current_piece.t_type != TetrominoType::T {
            return false;
        }
        if !self.last_move_was_spin {
            return false;
        }
        let mut corners: u32 = 0;
        let x = self.current_piece.x;
        let y = self.current_piece.y;
        let corner_coords = [(x, y), (x + 2, y), (x, y + 2), (x + 2, y + 2)];
        let mut i: usize = 0;
        while i < 4
            invariant
                i <= 4,
                x == self.current_piece.x,
                y == self.current_piece.y,
                x + 2 <= i32::MAX,
                y + 2 <= i32::MAX,
                forall|j: int|
                    0 <= j < 4 ==> (#[trigger] corner_coords[j]).0 == box_corner(x as int, y as int, j).0
                        && corner_coords[j].1 == box_corner(x as int, y as int, j).1,
                corners == blocked_corners_upto(self.board, x as int, y as int, i as int),
                corners <= i,
            decreases 4 - i,
        {
            let (cx, cy) = corner_coords[i];
            if cx < 0 || cx >= BOARD_WIDTH as i32 || cy >= BOARD_HEIGHT as i32 || (cy >= 0
                && self.board[cy as usize][cx as usize].is_some()) {
                corners = corners + 1;
            }
            i = i + 1;
        }
        corners >= 3
    }

    /// Enters Zone mode for ten seconds when the meter is full.
    pub fn start_zone(&mut self) -> (r: bool)
        ensures
            r == (!old(self).is_in_zone && old(self).zone_meter >= 100),
            r ==> *final(self) == (GameState {
                is_in_zone: true,
                zone_timer_ms: 10000,
                ..*old(self)
            }),
            !r ==> *final(self) == *old(self),
    {
        if self.is_in_zone || self.zone_meter < 100 {
            return false;
        }
        self.is_in_zone = true;
        self.zone_timer_ms = 10000;
        true
    }

    /// Leaves Zone mode, empties the meter and awards the Zone bonus; returns
    /// the number of lines cleared during the Zone (0 outside Zone mode).
    pub fn end_zone(&mut self) -> (r: u32)
        requires
            end_zone_fits(*old(self)),
        ensures
            !old(self).is_in_zone ==> r == 0 && *final(self) == *old(self),
            old(self).is_in_zone ==> r == old(self).zone_lines_cleared && *final(self) == (
            GameState {
                is_in_zone: false,
                zone_lines_cleared: 0,
                zone_meter: 0,
                score: (old(self).score + zone_bonus(r as int, old(self).level as int)) as u32,
                ..*old(self)
            }),
    {
        if !self.is_in_zone {
            return 0;
        }
        self.is_in_zone = false;
        let lines = self.zone_lines_cleared;
        self.zone_lines_cleared = 0;
        self.zone_meter = 0;
        if lines > 0 {
            let multiplier: u32 = if lines >= 8 {
                3
            } else if lines >= 4 {
                2
            } else {
                1
            };
            proof {
                let l = lines as int;
                let m = multiplier as int;
                assert(100 * l <= 100 * l * l) by (nonlinear_arith)
                    requires
                        l >= 1,
                ;
                assert(100 * l * l <= 100 * l * l * m) by (nonlinear_arith)
                    requires
                        l >= 1,
                        m >= 1,
                ;
            }
            let bonus = 100 * lines * lines * multiplier * self.level;
            self.score = self.score + bonus;
        } else {
            let ghost lvl = self.level as int;
            assert(zone_bonus(0, lvl) == 0) by (nonlinear_arith);
        }
        lines
    }

    /// Stack height of each column, left to right.
    pub fn get_topography(&self) -> (r: Vec<u32>)
        ensures
            r@.len() == BOARD_WIDTH,
            forall|x: int| 0 <= x < BOARD_WIDTH ==> r@[x] == column_height(self.board, x),
    {
        let mut heights: Vec<u32> = Vec::new();
        let mut x: usize = 0;
        while x < BOARD_WIDTH
            invariant
                x <= BOARD_WIDTH,
                heights@.len() == x,
                forall|c: int| 0 <= c < x ==> heights@[c] == column_height(self.board, c),
            decreases BOARD_WIDTH - x,
        {
            let mut height: u32 = 0;
            let mut y: usize = 0;
            loop
                invariant_except_break
                    x < BOARD_WIDTH,
                    y <= BOARD_HEIGHT,
                    height == 0,
                    column_height(self.board, x as int) == column_height_from(self.board, x as int, y as int),
                ensures
                    height == column_height(self.board, x as int),
                decreases BOARD_HEIGHT - y,
            {
                if y >= BOARD_HEIGHT {
                    break;
                }
                if self.board[y][x].is_some() {
                    height = (BOARD_HEIGHT - y) as u32;
                    break;
                }
                y = y + 1;
            }
            heights.push(height);
            x = x + 1;
        }
        heights
    }

    /// Height of the tallest column.
    pub fn max_column_height(&self) -> (r: u32)
        ensures
            r == max_height_upto(self.board, BOARD_WIDTH as int),
    {
        let topo = self.get_topography();
        let mut best: u32 = 0;
        let mut x: usize = 0;
        while x < topo.len()
            invariant
                topo@.len() == BOARD_WIDTH,
                forall|c: int| 0 <= c < BOARD_WIDTH ==> topo@[c] == column_height(self.board, c),
                x <= BOARD_WIDTH,
                best == max_height_upto(self.board, x as int),
            decreases BOARD_WIDTH - x,
        {
            if topo[x] > best {
                best = topo[x];
            }
            x = x + 1;
        }
        best
    }

    pub fn move_left(&mut self) -> (r: bool)
        requires
            shift_fits(old(self).current_piece, -1, 0),
        ensures
            r == valid_position(old(self).board, shifted(old(self).current_piece, -1, 0)),
            r ==> *final(self) == (GameState {
                current_piece: shifted(old(self).current_piece, -1, 0),
                last_move_was_spin: false,
                ..*old(self)
            }),
            !r ==> *final(self) == *old(self),
    {
        self.move_piece(-1, 0)
    }

    pub fn move_right(&mut self) -> (r: bool)
        requires
            shift_fits(old(self).current_piece, 1, 0),
        ensures
            r == valid_position(old(self).board, shifted(old(self).current_piece, 1, 0)),
            r ==> *final(self) == (GameState {
                current_piece: shifted(old(self).current_piece, 1, 0),
                last_move_was_spin: false,
                ..*old(self)
            }),
            !r ==> *final(self) == *old(self),
    {
        self.move_piece(1, 0)
    }

    pub fn move_down(&mut self) -> (r: bool)
        requires
            shift_fits(old(self).current_piece, 0, 1),
        ensures
            r == valid_position(old(self).board, shifted(old(self).current_piece, 0, 1)),
            r ==> *final(self) == (GameState {
                current_piece: shifted(old(self).current_piece, 0, 1),
                last_move_was_spin: false,
                ..*old(self)
            }),
            !r ==> *final(self) == *old(self),
    {
        self.move_piece(0, 1)
    }

    pub fn soft_drop(&mut self) -> (r: bool)
        requires
            shift_fits(old(self).current_piece, 0, 1),
        ensures
            r == valid_position(old(self).board, shifted(old(self).current_piece, 0, 1)),
            r ==> *final(self) == (GameState {
                current_piece: shifted(old(self).current_piece, 0, 1),
                last_move_was_spin: false,
                ..*old(self)
            }),
            !r ==> *final(self) == *old(self),
    {
        self.move_piece(0, 1)
    }

    /// Whether row `y` of the board has no empty cell.
    fn row_is_full(&self, y: usize) -> (r: bool)
        requires
            y < BOARD_HEIGHT,
        ensures
            r == row_full(grid_of(self.board), y as int),
    {
        let mut x: usize = 0;
        while x < BOARD_WIDTH
            invariant
                y < BOARD_HEIGHT,
                x <= BOARD_WIDTH,
                forall|c: int| 0 <= c < x ==> (#[trigger] self.board[y as int][c]) is Some,
            decreases BOARD_WIDTH - x,
        {
            if self.board[y][x].is_none() {
                assert(grid_of(self.board)[y as int][x as int] is None);
                return false;
            }
            x = x + 1;
        }
        assert forall|c: int| 0 <= c < BOARD_WIDTH implies (#[trigger] grid_of(self.board)[y as int][c]) is Some by {
            assert(self.board[y as int][c] is Some);
        }
        true
    }

    /// Moves rows `0..y` down by one (row `y` is overwritten) and empties
    /// row 0, on the board and on the item layer.
    fn shift_rows_down(&mut self, y: usize)
        requires
            y < BOARD_HEIGHT,
        ensures
            forall|r: int, x: int|
                0 <= r < BOARD_HEIGHT && 0 <= x < BOARD_WIDTH ==> #[trigger] final(self).board[r][x] == if r == 0 {
                    None
                } else if r <= y {
                    old(self).board[r - 1][x]
                } else {
                    old(self).board[r][x]
                },
            forall|r: int, x: int|
                0 <= r < BOARD_HEIGHT && 0 <= x < BOARD_WIDTH ==> #[trigger] final(self).item_board[r][x] == if r == 0 {
                    None
                } else if r <= y {
                    old(self).item_board[r - 1][x]
                } else {
                    old(self).item_board[r][x]
                },
            *final(self) == (GameState { board: final(self).board, item_board: final(self).item_board, ..*old(self) }),
    {
        let mut m: usize = y;
        while m > 0
            invariant
                y < BOARD_HEIGHT,
                m <= y,
                *self == (GameState { board: self.board, item_board: self.item_board, ..*old(self) }),
                forall|r: int, x: int|
                    0 <= r < BOARD_HEIGHT && 0 <= x < BOARD_WIDTH ==> #[trigger] self.board[r][x] == if m < r <= y {
                        old(self).board[r - 1][x]
                    } else {
                        old(self).board[r][x]
                    },
                forall|r: int, x: int|
                    0 <= r < BOARD_HEIGHT && 0 <= x < BOARD_WIDTH ==> #[trigger] self.item_board[r][x] == if m < r <= y {
                        old(self).item_board[r - 1][x]
                    } else {
                        old(self).item_board[r][x]
                    },
            decreases m,
        {
            self.board[m] = self.board[m - 1];
            self.item_board[m] = self.item_board[m - 1];
            m = m - 1;
        }
        self.board[0] = [None; 10];
        self.item_board[0] = [None; 10];
    }

    /// Removes every full row (collecting the items in them), lets the rows
    /// above fall, and returns the number of rows removed.
    fn clear_lines(&mut self) -> (r: u32)
        ensures
            r == full_row_count(grid_of(old(self).board)),
            board_matches(final(self).board, clear_grid(grid_of(old(self).board), grid_of(old(self).board))),
            board_matches(final(self).item_board, clear_grid(grid_of(old(self).board), grid_of(old(self).item_board))),
            final(self).item_acquired == acquired_from(grid_of(old(self).board), grid_of(old(self).item_board), 0),
            final(self).inventory == if final(self).item_acquired is Some {
                final(self).item_acquired
            } else {
                old(self).inventory
            },
            *final(self) == (GameState {
                board: final(self).board,
                item_board: final(self).item_board,
                item_acquired: final(self).item_acquired,
                inventory: final(self).inventory,
                ..*old(self)
            }),
    {
        let ghost g = grid_of(self.board);
        let ghost ig = grid_of(self.item_board);
        let mut cleared: u32 = 0;
        let mut y: i32 = (BOARD_HEIGHT - 1) as i32;
        self.item_acquired = None;
        let ghost mut u: int = BOARD_HEIGHT as int;
        proof {
            lemma_kept_rows_range(g, u);
            assert(board_matches(self.board, clearing_state(g, g, 0, u)));
            assert(board_matches(self.item_board, clearing_state(g, ig, 0, u)));
        }
        while y >= 0
            invariant
                0 <= u <= BOARD_HEIGHT,
                0 <= cleared <= BOARD_HEIGHT,
                cleared + u + kept_rows(g, u).len() == BOARD_HEIGHT,
                u > 0 ==> y == cleared + u - 1,
                u == 0 ==> -1 <= y < cleared,
                board_matches(self.board, clearing_state(g, g, cleared as int, u)),
                board_matches(self.item_board, clearing_state(g, ig, cleared as int, u)),
                self.item_acquired == acquired_from(g, ig, u),
                self.inventory == if self.item_acquired is Some {
                    self.item_acquired
                } else {
                    old(self).inventory
                },
                *self == (GameState {
                    board: self.board,
                    item_board: self.item_board,
                    item_acquired: self.item_acquired,
                    inventory: self.inventory,
                    ..*old(self)
                }),
            decreases y + 1 + u,
        {
            proof {
                lemma_kept_rows_range(g, u);
            }
            let row_full_now = self.row_is_full(y as usize);
            if row_full_now {
                proof {
                    if u == 0 {
                        assert(self.board[y as int][0] is None);
                        assert(grid_of(self.board)[y as int][0] is None);
                    }
                    assert(u > 0);
                    assert forall|x: int| 0 <= x < BOARD_WIDTH implies #[trigger] g[u - 1][x] is Some by {
                        assert(grid_of(self.board)[y as int][x] is Some);
                        assert(self.board[y as int][x] == g[u - 1][x]);
                    }
                    assert(row_full(g, u - 1));
                    assert(kept_rows(g, u - 1) == kept_rows(g, u));
                }
                cleared = cleared + 1;
                let ghost prev_acquired = self.item_acquired;
                let mut x: usize = 0;
                while x < BOARD_WIDTH
                    invariant
                        0 <= y < BOARD_HEIGHT,
                        u > 0,
                        y == cleared - 1 + u - 1,
                        x <= BOARD_WIDTH,
                        board_matches(self.board, clearing_state(g, g, (cleared - 1) as int, u)),
                        board_matches(self.item_board, clearing_state(g, ig, (cleared - 1) as int, u)),
                        self.item_acquired == if last_item_upto(ig[u - 1], x as int) is Some {
                            last_item_upto(ig[u - 1], x as int)
                        } else {
                            prev_acquired
                        },
                        self.inventory == if self.item_acquired is Some {
                            self.item_acquired
                        } else {
                            old(self).inventory
                        },
                        prev_acquired is Some ==> self.item_acquired is Some,
                        *self == (GameState {
                            board: self.board,
                            item_board: self.item_board,
                            item_acquired: self.item_acquired,
                            inventory: self.inventory,
                            ..*old(self)
                        }),
                    decreases BOARD_WIDTH - x,
                {
                    assert(self.item_board[y as int][x as int] == ig[u - 1][x as int]);
                    if let Some(item) = self.item_board[y as usize][x] {
                        self.inventory = Some(item);
                        self.item_acquired = Some(item);
                    }
                    x = x + 1;
                }
                let ghost pre_b = self.board;
                let ghost pre_ib = self.item_board;
                self.shift_rows_down(y as usize);
                proof {
                    let c0 = (cleared - 1) as int;
                    let u0 = u;
                    u = u - 1;
                    assert forall|r: int, x: int|
                        0 <= r < BOARD_HEIGHT && 0 <= x < BOARD_WIDTH implies #[trigger] self.board[r][x]
                        == clearing_state(g, g, cleared as int, u)[r][x] by {
                        if r == 0 {
                        } else if r <= y {
                            assert(pre_b[r - 1][x] == clearing_state(g, g, c0, u0)[r - 1][x]);
                        } else {
                            assert(pre_b[r][x] == clearing_state(g, g, c0, u0)[r][x]);
                        }
                    }
                    assert forall|r: int, x: int|
                        0 <= r < BOARD_HEIGHT && 0 <= x < BOARD_WIDTH implies #[trigger] self.item_board[r][x]
                        == clearing_state(g, ig, cleared as int, u)[r][x] by {
                        if r == 0 {
                        } else if r <= y {
                            assert(pre_ib[r - 1][x] == clearing_state(g, ig, c0, u0)[r - 1][x]);
                        } else {
                            assert(pre_ib[r][x] == clearing_state(g, ig, c0, u0)[r][x]);
                        }
                    }
                }
            } else {
                proof {
                    if u > 0 {
                        assert(!row_full(g, u - 1)) by {
                            let x = choose|x: int| 0 <= x < BOARD_WIDTH && !(#[trigger] grid_of(self.board)[y as int][x] is Some);
                            assert(self.board[y as int][x] == g[u - 1][x]);
                        }
                        assert(kept_rows(g, u - 1) == seq![u - 1] + kept_rows(g, u));
                        u = u - 1;
                        assert(board_matches(self.board, clearing_state(g, g, cleared as int, u)));
                        assert(board_matches(self.item_board, clearing_state(g, ig, cleared as int, u)));
                    }
                }
                y = y - 1;
            }
        }
        proof {
            assert(u == 0);
            assert(board_matches(self.board, clear_grid(g, g)));
            assert(board_matches(self.item_board, clear_grid(g, ig)));
        }
        cleared
    }

    /// Writes the current piece's cells, and its item, into the board.
    fn place_current_piece(&mut self)
        requires
            blocks_fit(old(self).current_piece),
        ensures
            board_matches(final(self).board, locked_board(*old(self))),
            board_matches(final(self).item_board, locked_items(*old(self))),
            *final(self) == (GameState { board: final(self).board, item_board: final(self).item_board, ..*old(self) }),
    {
        let p = self.current_piece;
        let blocks = p.get_blocks();
        let mut i: usize = 0;
        while i < 4
            invariant
                i <= 4,
                p == old(self).current_piece,
                blocks_fit(p),
                forall|j: int|
                    0 <= j < 4 ==> (#[trigger] blocks[j]).0 == block(p, j).0 && blocks[j].1 == block(p, j).1,
                *self == (GameState { board: self.board, ..*old(self) }),
                forall|y: int, x: int|
                    0 <= y < BOARD_HEIGHT && 0 <= x < BOARD_WIDTH ==> #[trigger] self.board[y][x] == if occupies_upto(p, i as int, x, y) {
                        Some(p.t_type)
                    } else {
                        old(self).board[y][x]
                    },
            decreases 4 - i,
        {
            let (x, y) = blocks[i];
            if y >= 0 && y < BOARD_HEIGHT as i32 && x >= 0 && x < BOARD_WIDTH as i32 {
                self.board[y as usize][x as usize] = Some(p.t_type);
            }
            i = i + 1;
        }
        if let Some(item) = p.item {
            let (x, y) = blocks[0];
            if y >= 0 && y < BOARD_HEIGHT as i32 && x >= 0 && x < BOARD_WIDTH as i32 {
                self.item_board[y as usize][x as usize] = Some(item);
            }
        }
    }

    /// Locks the current piece into the board, clears full rows, scores the
    /// clear (or counts it toward the Zone), and draws the next piece; the
    /// game ends if that piece does not fit.
    pub fn lock_piece(&mut self) -> (r: LockResult)
        requires
            lock_fits(*old(self)),
        ensures
            locked(*old(self), *final(self), r),
            !old(self).is_in_zone ==> final(self).zone_meter == if lock_lines(*old(self)) > 0 {
                charged_meter(old(self).zone_meter as int, lock_lines(*old(self)), lock_t_spin(*old(self)))
            } else {
                old(self).zone_meter as int
            },
            !old(self).is_in_zone && old(self).zone_meter <= 100 ==> final(self).zone_meter <= 100
                && r.zone_meter_full == (final(self).zone_meter == 100 && old(self).zone_meter < 100),
    {
        let ghost pre = *self;
        let is_t_spin = self.is_t_spin();
        self.place_current_piece();
        proof {
            lemma_grid_of_matches(self.board, locked_board(pre));
            lemma_grid_of_matches(self.item_board, locked_items(pre));
        }
        let cleared_lines = self.clear_lines();
        let r = self.apply_clear(cleared_lines, is_t_spin);
        self.current_piece = self.next_piece();
        if !self.is_valid_position(&self.current_piece) {
            self.is_game_over = true;
        }
        self.has_held = false;
        self.lock_delay_active = false;
        r
    }

    /// Updates combo, back-to-back, lines, level, score and Zone counters for
    /// a clear of `cleared_lines` lines and reports it.
    fn apply_clear(&mut self, cleared_lines: u32, is_t_spin: bool) -> (r: LockResult)
        requires
            cleared_lines <= BOARD_HEIGHT,
            clear_fits(*old(self), cleared_lines as int, is_t_spin),
        ensures
            *final(self) == scored(*old(self), cleared_lines as int, is_t_spin),
            r == lock_report(*old(self), cleared_lines as int, is_t_spin),
    {
        let ghost pre = *self;
        let ghost n = cleared_lines as int;
        let mut b2b_bonus = false;
        let mut zone_lines_cleared_this_turn: u32 = 0;
        let mut zone_meter_full = false;
        let mut reported_clears: u32 = 0;
        if cleared_lines > 0 {
            if self.is_in_zone {
                self.zone_lines_cleared = self.zone_lines_cleared + cleared_lines;
                zone_lines_cleared_this_turn = cleared_lines;
            } else {
                reported_clears = cleared_lines;
                self.combo = self.combo + 1;
                let is_hard_clear = cleared_lines == 4 || is_t_spin;
                if is_hard_clear && self.b2b > 0 {
                    b2b_bonus = true;
                }
                if is_hard_clear {
                    self.b2b = self.b2b + 1;
                } else {
                    self.b2b = 0;
                }
                self.total_lines = self.total_lines + cleared_lines;
                self.level = 1 + (self.total_lines / 10);
                let base: u32 = if cleared_lines == 1 {
                    if is_t_spin { 800 } else { 100 }
                } else if cleared_lines == 2 {
                    if is_t_spin { 1200 } else { 300 }
                } else if cleared_lines == 3 {
                    if is_t_spin { 1600 } else { 500 }
                } else if cleared_lines == 4 {
                    800
                } else {
                    0
                };
                let b2b_mult: u32 = if b2b_bonus { 3 } else { 2 };
                assert(base == line_base(n, is_t_spin));
                assert(b2b_bonus == b2b_bonus_of(pre, n, is_t_spin));
                let points = base * b2b_mult / 2 + (50 * (self.combo - 1));
                assert(points == clear_points(pre, n, is_t_spin));
                assert(self.level == level_after(pre, n));
                self.score = self.score + points * self.level;
                let (meter, full) = charge_zone_meter(self.zone_meter, cleared_lines, is_t_spin);
                self.zone_meter = meter;
                zone_meter_full = full;
            }
        } else {
            self.combo = 0;
        }
        LockResult {
            cleared_lines: reported_clears,
            is_t_spin,
            b2b_bonus,
            combo: self.combo,
            zone_lines_cleared_this_turn,
            zone_meter_full,
        }
    }

    /// Moves the current piece into the hold slot. The previously held shape
    /// (if any) comes back as a fresh piece; otherwise the next piece is drawn.
    /// Only one hold is allowed per piece: returns `None` when already used,
    /// else whether it was a swap, the shape put on hold and the new shape.
    pub fn hold(&mut self) -> (r: Option<(bool, TetrominoType, TetrominoType)>)
        ensures
            held(*old(self), *final(self), r),
    {
        if self.has_held {
            return None;
        }
        let current_type = self.current_piece.t_type;
        let is_swap = self.hold_piece.is_some();
        let new_piece = match self.hold_piece {
            Some(held) => Tetromino::new(held),
            None => self.next_piece(),
        };
        let new_type = new_piece.t_type;
        self.hold_piece = Some(current_type);
        self.current_piece = new_piece;
        self.has_held = true;
        Some((is_swap, current_type, new_type))
    }

    /// Drops the locked cells (and their items) of column `x` to the floor.
    fn magnet_column(&mut self, x: usize)
        requires
            x < BOARD_WIDTH,
        ensures
            forall|y: int|
                0 <= y < BOARD_HEIGHT ==> #[trigger] final(self).board[y][x as int] == magnet_cell(old(self).board, x as int, y),
            forall|y: int|
                0 <= y < BOARD_HEIGHT ==> #[trigger] final(self).item_board[y][x as int] == magnet_item(old(self).board, old(self).item_board, x as int, y),
            forall|y: int, c: int|
                0 <= y < BOARD_HEIGHT && 0 <= c < BOARD_WIDTH && c != x ==> #[trigger] final(self).board[y][c] == old(self).board[y][c],
            forall|y: int, c: int|
                0 <= y < BOARD_HEIGHT && 0 <= c < BOARD_WIDTH && c != x ==> #[trigger] final(self).item_board[y][c] == old(self).item_board[y][c],
            *final(self) == (GameState { board: final(self).board, item_board: final(self).item_board, ..*old(self) }),
    {
        let ghost b0 = self.board;
        let ghost ib0 = self.item_board;
        let ghost s = filled_rows_desc(b0, x as int, BOARD_HEIGHT as int);
        let mut write_y: i32 = BOARD_HEIGHT as i32 - 1;
        let mut read_y: i32 = BOARD_HEIGHT as i32 - 1;
        proof {
            lemma_filled_rows_split(b0, x as int, BOARD_HEIGHT as int, BOARD_HEIGHT as int);
        }
        while read_y >= 0
            invariant
                x < BOARD_WIDTH,
                b0 == old(self).board,
                ib0 == old(self).item_board,
                -1 <= read_y < BOARD_HEIGHT,
                read_y <= write_y < BOARD_HEIGHT,
                s == filled_rows_desc(b0, x as int, BOARD_HEIGHT as int),
                s.len() - filled_rows_desc(b0, x as int, read_y + 1).len() == BOARD_HEIGHT - 1 - write_y,
                forall|j: int|
                    0 <= j < filled_rows_desc(b0, x as int, read_y + 1).len() ==> s[BOARD_HEIGHT - 1 - write_y + j]
                        == #[trigger] filled_rows_desc(b0, x as int, read_y + 1)[j],
                *self == (GameState { board: self.board, item_board: self.item_board, ..*old(self) }),
                forall|y: int, c: int|
                    0 <= y < BOARD_HEIGHT && 0 <= c < BOARD_WIDTH && c != x ==> #[trigger] self.board[y][c] == b0[y][c],
                forall|y: int, c: int|
                    0 <= y < BOARD_HEIGHT && 0 <= c < BOARD_WIDTH && c != x ==> #[trigger] self.item_board[y][c] == ib0[y][c],
                forall|y: int|
                    write_y < y < BOARD_HEIGHT ==> #[trigger] self.board[y][x as int] == b0[s[BOARD_HEIGHT - 1 - y]][x as int],
                forall|y: int|
                    write_y < y < BOARD_HEIGHT ==> #[trigger] self.item_board[y][x as int] == ib0[s[BOARD_HEIGHT - 1 - y]][x as int],
                forall|y: int| read_y < y <= write_y ==> (#[trigger] self.board[y][x as int]) is None,
                forall|y: int|
                    read_y < y <= write_y ==> #[trigger] self.item_board[y][x as int] == if b0[y][x as int] is Some {
                        None
                    } else {
                        ib0[y][x as int]
                    },
                forall|y: int| 0 <= y <= read_y ==> #[trigger] self.board[y][x as int] == b0[y][x as int],
                forall|y: int| 0 <= y <= read_y ==> #[trigger] self.item_board[y][x as int] == ib0[y][x as int],
            decreases read_y + 1,
        {
            proof {
                lemma_filled_rows_split(b0, x as int, BOARD_HEIGHT as int, read_y + 1);
                lemma_filled_rows_split(b0, x as int, BOARD_HEIGHT as int, read_y as int);
            }
            let ghost fr = filled_rows_desc(b0, x as int, read_y + 1);
            let ghost fr_below = filled_rows_desc(b0, x as int, read_y as int);
            let ghost k = BOARD_HEIGHT - 1 - write_y;
            if self.board[read_y as usize][x].is_some() {
                let w = write_y as usize;
                let r = read_y as usize;
                proof {
                    assert(b0[read_y as int][x as int] is Some);
                    assert(fr == seq![read_y as int] + fr_below);
                    assert(s[k + 0] == fr[0]);
                    assert forall|j: int| 0 <= j < fr_below.len() implies s[k + 1 + j] == #[trigger] fr_below[j] by {
                        assert(fr[j + 1] == fr_below[j]);
                        assert(s[k + (j + 1)] == fr[j + 1]);
                    }
                }
                let cell = self.board[r][x];
                let item = self.item_board[r][x];
                self.board[w][x] = cell;
                self.item_board[w][x] = item;
                if write_y != read_y {
                    self.board[r][x] = None;
                    self.item_board[r][x] = None;
                }
                write_y = write_y - 1;
            } else {
                proof {
                    assert(fr == fr_below);
                }
            }
            read_y = read_y - 1;
        }
        proof {
            assert(filled_rows_desc(b0, x as int, 0).len() == 0);
        }
    }

    /// Drops every column's locked cells (and their items) to the floor.
    fn apply_magnet(&mut self)
        ensures
            forall|y: int, x: int|
                0 <= y < BOARD_HEIGHT && 0 <= x < BOARD_WIDTH ==> #[trigger] final(self).board[y][x] == magnet_cell(
                    old(self).board,
                    x,
                    y,
                ),
            forall|y: int, x: int|
                0 <= y < BOARD_HEIGHT && 0 <= x < BOARD_WIDTH ==> #[trigger] final(self).item_board[y][x] == magnet_item(old(self).board, old(self).item_board, x, y),
            *final(self) == (GameState { board: final(self).board, item_board: final(self).item_board, ..*old(self) }),
    {
        let ghost b0 = self.board;
        let ghost ib0 = self.item_board;
        let mut x: usize = 0;
        while x < BOARD_WIDTH
            invariant
                x <= BOARD_WIDTH,
                b0 == old(self).board,
                ib0 == old(self).item_board,
                *self == (GameState { board: self.board, item_board: self.item_board, ..*old(self) }),
                forall|y: int, c: int|
                    0 <= y < BOARD_HEIGHT && 0 <= c < BOARD_WIDTH ==> #[trigger] self.board[y][c] == if c < x {
                        magnet_cell(b0, c, y)
                    } else {
                        b0[y][c]
                    },
                forall|y: int, c: int|
                    0 <= y < BOARD_HEIGHT && 0 <= c < BOARD_WIDTH ==> #[trigger] self.item_board[y][c] == if c < x {
                        magnet_item(b0, ib0, c, y)
                    } else {
                        ib0[y][c]
                    },
            decreases BOARD_WIDTH - x,
        {
            let ghost bc = self.board;
            let ghost ibc = self.item_board;
            proof {
                assert forall|y: int| 0 <= y < BOARD_HEIGHT implies magnet_cell(bc, x as int, y) == magnet_cell(b0, x as int, y)
                    && magnet_item(bc, ibc, x as int, y) == magnet_item(b0, ib0, x as int, y) by {
                    lemma_magnet_column_only(bc, ibc, b0, ib0, x as int, y);
                }
            }
            self.magnet_column(x);
            x = x + 1;
        }
    }

    /// Removes the bottom four rows; everything above falls four rows.
    fn apply_nuke(&mut self)
        ensures
            board_matches(final(self).board, nuke_grid(grid_of(old(self).board))),
            board_matches(final(self).item_board, nuke_grid(grid_of(old(self).item_board))),
            *final(self) == (GameState { board: final(self).board, item_board: final(self).item_board, ..*old(self) }),
    {
        let mut y: usize = BOARD_HEIGHT - 4;
        while y > 0
            invariant
                y <= BOARD_HEIGHT - 4,
                *self == (GameState { board: self.board, item_board: self.item_board, ..*old(self) }),
                forall|r: int, x: int|
                    0 <= r < BOARD_HEIGHT && 0 <= x < BOARD_WIDTH ==> #[trigger] self.board[r][x] == if r >= y + 4 {
                        old(self).board[r - 4][x]
                    } else {
                        old(self).board[r][x]
                    },
                forall|r: int, x: int|
                    0 <= r < BOARD_HEIGHT && 0 <= x < BOARD_WIDTH ==> #[trigger] self.item_board[r][x] == if r >= y + 4 {
                        old(self).item_board[r - 4][x]
                    } else {
                        old(self).item_board[r][x]
                    },
            decreases y,
        {
            let src = y - 1;
            self.board[src + 4] = self.board[src];
            self.item_board[src + 4] = self.item_board[src];
            y = y - 1;
        }
        let mut k: usize = 0;
        while k < 4
            invariant
                k <= 4,
                *self == (GameState { board: self.board, item_board: self.item_board, ..*old(self) }),
                forall|r: int, x: int|
                    0 <= r < BOARD_HEIGHT && 0 <= x < BOARD_WIDTH ==> #[trigger] self.board[r][x] == if r >= 4 {
                        old(self).board[r - 4][x]
                    } else if r < k {
                        None
                    } else {
                        old(self).board[r][x]
                    },
                forall|r: int, x: int|
                    0 <= r < BOARD_HEIGHT && 0 <= x < BOARD_WIDTH ==> #[trigger] self.item_board[r][x] == if r >= 4 {
                        old(self).item_board[r - 4][x]
                    } else if r < k {
                        None
                    } else {
                        old(self).item_board[r][x]
                    },
            decreases 4 - k,
        {
            self.board[k] = [None; 10];
            self.item_board[k] = [None; 10];
            k = k + 1;
        }
    }

    /// Empties the first tallest column, on the board and the item layer.
    fn apply_laser(&mut self)
        ensures
            board_matches(final(self).board, laser_grid(grid_of(old(self).board), laser_column_upto(old(self).board, BOARD_WIDTH as int))),
            board_matches(final(self).item_board, laser_grid(grid_of(old(self).item_board), laser_column_upto(old(self).board, BOARD_WIDTH as int))),
            *final(self) == (GameState { board: final(self).board, item_board: final(self).item_board, ..*old(self) }),
    {
        let topo = self.get_topography();
        let mut max_h: u32 = 0;
        let mut max_col: usize = 0;
        let mut x: usize = 0;
        while x < BOARD_WIDTH
            invariant
                x <= BOARD_WIDTH,
                topo@.len() == BOARD_WIDTH,
                forall|c: int| 0 <= c < BOARD_WIDTH ==> topo@[c] == column_height(self.board, c),
                max_h == max_height_upto(self.board, x as int),
                max_col == laser_column_upto(self.board, x as int),
                max_col < BOARD_WIDTH,
            decreases BOARD_WIDTH - x,
        {
            let h = topo[x];
            if h > max_h {
                max_h = h;
                max_col = x;
            }
            x = x + 1;
        }
        let ghost col = max_col as int;
        let mut y: usize = 0;
        while y < BOARD_HEIGHT
            invariant
                y <= BOARD_HEIGHT,
                max_col < BOARD_WIDTH,
                col == max_col,
                col == laser_column_upto(old(self).board, BOARD_WIDTH as int),
                *self == (GameState { board: self.board, item_board: self.item_board, ..*old(self) }),
                forall|r: int, c: int|
                    0 <= r < BOARD_HEIGHT && 0 <= c < BOARD_WIDTH ==> #[trigger] self.board[r][c] == if r < y && c == col {
                        None
                    } else {
                        old(self).board[r][c]
                    },
                forall|r: int, c: int|
                    0 <= r < BOARD_HEIGHT && 0 <= c < BOARD_WIDTH ==> #[trigger] self.item_board[r][c] == if r < y && c == col {
                        None
                    } else {
                        old(self).item_board[r][c]
                    },
            decreases BOARD_HEIGHT - y,
        {
            self.board[y][max_col] = None;
            self.item_board[y][max_col] = None;
            y = y + 1;
        }
    }

    /// Uses the item in the inventory (if any) and empties the inventory:
    /// the Magnet drops every column, the Nuke removes the bottom four rows,
    /// the Laser empties the tallest column.
    pub fn use_item(&mut self) -> (r: Option<ItemType>)
        ensures
            item_used(*old(self), *final(self), r),
    {
        let item = match self.inventory {
            Some(item) => item,
            None => return None,
        };
        self.inventory = None;
        match item {
            ItemType::Magnet => self.apply_magnet(),
            ItemType::Nuke => self.apply_nuke(),
            ItemType::Laser => self.apply_laser(),
        }
        Some(item)
    }

    /// Drops the current piece straight down and locks it.
    pub fn hard_drop(&mut self) -> (r: LockResult)
        requires
            old(self).current_piece.y < i32::MAX,
            blocks_fit(at_row(old(self).current_piece, (old(self).current_piece.y + 1) as i32)),
            lock_fits(dropped(*old(self), landing_y(old(self).board, old(self).current_piece))),
        ensures
            locked(dropped(*old(self), landing_y(old(self).board, old(self).current_piece)), *final(self), r),
    {
        let gy = self.get_ghost_y();
        proof {
            lemma_landing_unique(self.board, self.current_piece, gy, landing_y(self.board, self.current_piece));
        }
        self.current_piece.y = gy;
        assert(*self == dropped(*old(self), landing_y(old(self).board, old(self).current_piece)));
        self.lock_piece()
    }

    pub fn rotate_cw(&mut self) -> (r: bool)
        requires
            old(self).current_piece.rotation < usize::MAX,
            kicks_fit(
                old(self).current_piece,
                rotation_cw(old(self).current_piece.rotation),
                kick_table(
                    old(self).current_piece.t_type,
                    old(self).current_piece.rotation as int,
                    rotation_cw(old(self).current_piece.rotation) as int,
                ),
            ),
        ensures
            r == rotation_outcome(
                old(self).board,
                old(self).current_piece,
                rotation_cw(old(self).current_piece.rotation),
            ) is Some,
            match rotation_outcome(
                old(self).board,
                old(self).current_piece,
                rotation_cw(old(self).current_piece.rotation),
            ) {
                Some(c) => *final(self) == (GameState {
                    current_piece: c,
                    last_move_was_spin: true,
                    ..*old(self)
                }),
                None => *final(self) == *old(self),
            },
    {
        self.rotate_piece()
    }

    pub fn rotate_ccw(&mut self) -> (r: bool)
        requires
            kicks_fit(
                old(self).current_piece,
                rotation_ccw(old(self).current_piece.rotation),
                kick_table(
                    old(self).current_piece.t_type,
                    old(self).current_piece.rotation as int,
                    rotation_ccw(old(self).current_piece.rotation) as int,
                ),
            ),
        ensures
            r == rotation_outcome(
                old(self).board,
                old(self).current_piece,
                rotation_ccw(old(self).current_piece.rotation),
            ) is Some,
            match rotation_outcome(
                old(self).board,
                old(self).current_piece,
                rotation_ccw(old(self).current_piece.rotation),
            ) {
                Some(c) => *final(self) == (GameState {
                    current_piece: c,
                    last_move_was_spin: true,
                    ..*old(self)
                }),
                None => *final(self) == *old(self),
            },
    {
        self.rotate_piece_ccw()
    }

    /// A new game of the given difficulty.
    pub fn new(difficulty: Difficulty) -> (r: Self)
        ensures
            new_game(r, difficulty),
    {
        let mut gs = Self {
            board: [[None; 10]; 20],
            item_board: [[None; 10]; 20],
            current_piece: Tetromino::new(TetrominoType::I),
            score: 0,
            level: 1,
            total_lines: 0,
            is_game_over: false,
            difficulty,
            hold_piece: None,
            has_held: false,
            bag: Vec::new(),
            b2b: 0,
            combo: 0,
            last_move_was_spin: false,
            lock_delay_active: false,
            lock_delay_timer_ms: 0,
            fall_timer_ms: 0,
            moves_since_lock_delay: 0,
            is_in_zone: false,
            zone_meter: 0,
            zone_lines_cleared: 0,
            zone_timer_ms: 0,
            inventory: None,
            item_spawned: None,
            item_acquired: None,
        };
        gs.fill_bag();
        let ghost filled = gs.bag@;
        assert(filled =~= filled.subrange(0, 7));
        gs.current_piece = gs.next_piece();
        assert(seq![gs.current_piece.t_type] + gs.bag@ =~= filled);
        gs
    }

    /// Whether `(x, y)` is one of the four cells in `blocks`.
    fn blocks_contain(blocks: &[(i32, i32); 4], x: i32, y: i32) -> (r: bool)
        ensures
            r == exists|j: int| 0 <= j < 4 && #[trigger] blocks[j] == (x, y),
    {
        let mut j: usize = 0;
        while j < 4
            invariant
                j <= 4,
                forall|k: int| 0 <= k < j ==> #[trigger] blocks[k] != (x, y),
            decreases 4 - j,
        {
            if blocks[j].0 == x && blocks[j].1 == y {
                return true;
            }
            j = j + 1;
        }
        false
    }

    /// Whether dropping the current piece straight down would leave no hole
    /// below any of its cells.
    pub fn is_perfect_fit(&self) -> (r: bool)
        requires
            self.current_piece.y < i32::MAX,
            blocks_fit(at_row(self.current_piece, (self.current_piece.y + 1) as i32)),
            blocks_on_board(self.current_piece),
        ensures
            r == perfect_fit(self.board, at_row(self.current_piece, landing_y(self.board, self.current_piece))),
    {
        let gy = self.get_ghost_y();
        proof {
            lemma_landing_unique(self.board, self.current_piece, gy, landing_y(self.board, self.current_piece));
        }
        let mut ghost_piece = self.current_piece;
        ghost_piece.y = gy;
        let ghost g = ghost_piece;
        proof {
            assert(g == at_row(self.current_piece, gy));
            if gy > self.current_piece.y {
                assert(valid_position(self.board, g));
                assert forall|i: int| 0 <= i < 4 implies #[trigger] on_board(block(g, i).0, block(g, i).1) by {
                    assert(cell_free(self.board, block(g, i).0, block(g, i).1));
                }
            } else {
                assert(g == self.current_piece);
            }
            assert forall|i: int| 0 <= i < 4 implies #[trigger] block(g, i).0 <= i32::MAX && block(g, i).1 <= i32::MAX by {
                assert(on_board(block(g, i).0, block(g, i).1));
            }
        }
        let blocks = ghost_piece.get_blocks();
        let mut i: usize = 0;
        while i < 4
            invariant
                i <= 4,
                blocks_on_board(g),
                g == at_row(self.current_piece, landing_y(self.board, self.current_piece)),
                forall|j: int|
                    0 <= j < 4 ==> (#[trigger] blocks[j]).0 == block(g, j).0 && blocks[j].1 == block(g, j).1,
                forall|j: int, cy: int|
                    0 <= j < i && block(g, j).1 < cy < BOARD_HEIGHT && !occupies(g, block(g, j).0, cy) ==> (
                    #[trigger] self.board[cy][block(g, j).0]) is Some,
            decreases 4 - i,
        {
            let (x, y) = blocks[i];
            assert(on_board(block(g, i as int).0, block(g, i as int).1));
            let mut check_y: i32 = y + 1;
            while check_y < BOARD_HEIGHT as i32
                invariant
                    i < 4,
                    g == at_row(self.current_piece, landing_y(self.board, self.current_piece)),
                    0 <= x < BOARD_WIDTH,
                    x == block(g, i as int).0,
                    y == block(g, i as int).1,
                    0 <= y < BOARD_HEIGHT,
                    y + 1 <= check_y <= BOARD_HEIGHT,
                    forall|j: int|
                        0 <= j < 4 ==> (#[trigger] blocks[j]).0 == block(g, j).0 && blocks[j].1 == block(g, j).1,
                    forall|cy: int|
                        y < cy < check_y && !occupies(g, x as int, cy) ==> (#[trigger] self.board[cy][x as int]) is Some,
                decreases BOARD_HEIGHT - check_y,
            {
                let inside = Self::blocks_contain(&blocks, x, check_y);
                proof {
                    if occupies(g, x as int, check_y as int) {
                        if block(g, 0) == (x as int, check_y as int) {
                            assert(blocks[0] == (x, check_y));
                        } else if block(g, 1) == (x as int, check_y as int) {
                            assert(blocks[1] == (x, check_y));
                        } else if block(g, 2) == (x as int, check_y as int) {
                            assert(blocks[2] == (x, check_y));
                        } else {
                            assert(blocks[3] == (x, check_y));
                        }
                    }
                    if inside {
                        let j = choose|j: int| 0 <= j < 4 && #[trigger] blocks[j] == (x, check_y);
                        assert(block(g, j) == (x as int, check_y as int));
                    }
                }
                if !inside {
                    if self.board[check_y as usize][x as usize].is_none() {
                        assert(!occupies(g, x as int, check_y as int));
                        assert(self.board[check_y as int][block(g, i as int).0] is None);
                        assert(!perfect_fit(self.board, g));
                        return false;
                    }
                }
                check_y = check_y + 1;
            }
            i = i + 1;
        }
        true
    }
}

} // verus!
