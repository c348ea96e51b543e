//! The text view of a game in progress.
use vstd::prelude::*;
use crate::logic::{
    at_row, block, blocks_fit, landing_row, landing_y, lemma_landing_unique, occupies, valid_position,
    cell_free, on_board, GameState, ItemType, TetrominoType, BOARD_HEIGHT, BOARD_WIDTH,
};
use crate::numfmt::{decimal, pad_left, pad_right, push_decimal, push_decimal_padded, push_padded_right};
use crate::text::push_str;

verus! {

/// Two-character picture of a locked cell of each shape.
pub open spec fn piece_cell_text(p: TetrominoType) -> Seq<char> {
    match p {
        TetrominoType::I => "II"@,
        TetrominoType::J => "JJ"@,
        TetrominoType::L => "LL"@,
        TetrominoType::O => "OO"@,
        TetrominoType::S => "SS"@,
        TetrominoType::T => "TT"@,
        TetrominoType::Z => "ZZ"@,
    }
}

/// Letter of a shape, or "None".
pub open spec fn piece_name_text(p: Option<TetrominoType>) -> Seq<char> {
    match p {
        Some(TetrominoType::I) => "I"@,
        Some(TetrominoType::J) => "J"@,
        Some(TetrominoType::L) => "L"@,
        Some(TetrominoType::O) => "O"@,
        Some(TetrominoType::S) => "S"@,
        Some(TetrominoType::T) => "T"@,
        Some(TetrominoType::Z) => "Z"@,
        None => "None"@,
    }
}

/// Short name of an item, or "None".
pub open spec fn item_name_text(i: Option<ItemType>) -> Seq<char> {
    match i {
        Some(ItemType::Magnet) => "Magnet"@,
        Some(ItemType::Nuke) => "Nuke"@,
        Some(ItemType::Laser) => "Laser"@,
        None => "None"@,
    }
}

/// Letter that marks an item's cell on the drawn board.
pub open spec fn item_symbol_text(i: ItemType) -> Seq<char> {
    match i {
        ItemType::Magnet => "M"@,
        ItemType::Nuke => "N"@,
        ItemType::Laser => "L"@,
    }
}

/// The letter drawn on an item's cell.
pub fn item_symbol(item: ItemType) -> (r: &'static str)
    ensures
        r@ == item_symbol_text(item),
{
    match item {
        ItemType::Magnet => "M",
        ItemType::Nuke => "N",
        ItemType::Laser => "L",
    }
}

/// Whether `(x, y)` is a cell of the board, and so is drawn.
pub fn visible(x: i32, y: i32) -> (r: bool)
    ensures
        r == on_board(x as int, y as int),
{
    x >= 0 && x < BOARD_WIDTH as i32 && y >= 0 && y < BOARD_HEIGHT as i32
}

/// Picture of board cell `(x, y)`: the falling piece "[]", an item "$$", a
/// locked cell, the landing shadow "..", or blank.
pub open spec fn cell_text(gs: GameState, gy: i32, x: int, y: int) -> Seq<char> {
    if occupies(gs.current_piece, x, y) {
        "[]"@
    } else if gs.item_board[y][x] is Some {
        "$$"@
    } else if gs.board[y][x] is Some {
        piece_cell_text(gs.board[y][x]->0)
    } else if occupies(at_row(gs.current_piece, gy), x, y) {
        ".."@
    } else {
        "  "@
    }
}

/// The pictures of the first `n` cells of row `y`.
pub open spec fn row_cells_text(gs: GameState, gy: i32, y: int, n: int) -> Seq<char>
    decreases n,
{
    if n <= 0 {
        Seq::empty()
    } else {
        row_cells_text(gs, gy, y, n - 1) + cell_text(gs, gy, n - 1, y)
    }
}

/// The first `n` rows of the board picture, each framed by `|`.
pub open spec fn rows_text(gs: GameState, gy: i32, n: int) -> Seq<char>
    decreases n,
{
    if n <= 0 {
        Seq::empty()
    } else {
        rows_text(gs, gy, n - 1) + "|"@ + row_cells_text(gs, gy, n - 1, BOARD_WIDTH as int) + "|\n"@
    }
}

/// The framed picture of the board with the falling piece and its shadow at
/// row `gy`.
pub open spec fn board_text(gs: GameState, gy: i32) -> Seq<char> {
    "+--------------------+\n"@ + rows_text(gs, gy, BOARD_HEIGHT as int) + "+--------------------+"@
}

/// The Zone line of the game view.
pub open spec fn zone_text(gs: GameState) -> Seq<char> {
    if gs.is_in_zone {
        "Zone active: "@ + decimal((if gs.zone_timer_ms > 0 { gs.zone_timer_ms as int } else { 0int }) as nat) + " ms"@
    } else {
        "Zone inactive"@
    }
}

/// The whole text view of a game.
pub open spec fn in_game_text(gs: GameState, gy: i32) -> Seq<char> {
    "AUDIO TETRIS\nLevel "@ + pad_left(decimal(gs.level as nat), 2) + "   Score "@ + pad_left(
        decimal(gs.score as nat),
        8,
    ) + "   Lines "@ + pad_left(decimal(gs.total_lines as nat), 3) + "   Zone "@ + pad_left(
        decimal(gs.zone_meter as nat),
        3,
    ) + "%\nHold: "@ + pad_right(piece_name_text(gs.hold_piece), 10) + "   Current: "@ + pad_right(
        piece_name_text(Some(gs.current_piece.t_type)),
        10,
    ) + "   Item: "@ + pad_right(item_name_text(gs.inventory), 10) + "\n"@ + zone_text(gs) + "\n"@
        + board_text(gs, gy) + "\n"@ + "Legend: [] active | ## locked | .. ghost | $$ item |    empty"@
        + "\nPress Escape to pause game."@
}

fn piece_cell(piece: TetrominoType) -> (r: &'static str)
    ensures
        r@ == piece_cell_text(piece),
{
    match piece {
        TetrominoType::I => "II",
        TetrominoType::J => "JJ",
        TetrominoType::L => "LL",
        TetrominoType::O => "OO",
        TetrominoType::S => "SS",
        TetrominoType::T => "TT",
        TetrominoType::Z => "ZZ",
    }
}

fn piece_name(piece: Option<TetrominoType>) -> (r: &'static str)
    ensures
        r@ == piece_name_text(piece),
{
    match piece {
        Some(TetrominoType::I) => "I",
        Some(TetrominoType::J) => "J",
        Some(TetrominoType::L) => "L",
        Some(TetrominoType::O) => "O",
        Some(TetrominoType::S) => "S",
        Some(TetrominoType::T) => "T",
        Some(TetrominoType::Z) => "Z",
        None => "None",
    }
}

fn item_name(item: Option<ItemType>) -> (r: &'static str)
    ensures
        r@ == item_name_text(item),
{
    match item {
        Some(ItemType::Magnet) => "Magnet",
        Some(ItemType::Nuke) => "Nuke",
        Some(ItemType::Laser) => "Laser",
        None => "None",
    }
}

/// Whether `(x, y)` is among the four cells `blocks`.
fn among(blocks: &[(i32, i32); 4], x: i32, y: i32) -> (r: bool)
    ensures
        r == exists|j: int| 0 <= j < 4 && #[trigger] blocks[j] == (x, y),
{
    let mut j: usize = 0;
    while j < 4
        invariant
            j <= 4,
            forall|k: int| 0 <= k < j ==> #[trigger] blocks[k] != (x, y),
        decreases 4 - j,
    {
        if blocks[j].0 == x && blocks[j].1 == y {
            return true;
        }
        j = j + 1;
    }
    false
}

proof fn lemma_among_occupies(blocks: [(i32, i32); 4], p: crate::logic::Tetromino, x: i32, y: i32)
    requires
        forall|j: int| 0 <= j < 4 ==> (#[trigger] blocks[j]).0 == block(p, j).0 && blocks[j].1 == block(p, j).1,
    ensures
        (exists|j: int| 0 <= j < 4 && #[trigger] blocks[j] == (x, y)) == occupies(p, x as int, y as int),
{
    if occupies(p, x as int, y as int) {
        if block(p, 0) == (x as int, y as int) {
            assert(blocks[0] == (x, y));
        } else if block(p, 1) == (x as int, y as int) {
            assert(blocks[1] == (x, y));
        } else if block(p, 2) == (x as int, y as int) {
            assert(blocks[2] == (x, y));
        } else {
            assert(blocks[3] == (x, y));
        }
    }
    if exists|j: int| 0 <= j < 4 && #[trigger] blocks[j] == (x, y) {
        let j = choose|j: int| 0 <= j < 4 && #[trigger] blocks[j] == (x, y);
        assert(block(p, j) == (x as int, y as int));
    }
}

/// The framed picture of the board.
fn render_board(gs: &GameState) -> (r: String)
    requires
        gs.current_piece.y < i32::MAX,
        blocks_fit(at_row(gs.current_piece, (gs.current_piece.y + 1) as i32)),
    ensures
        r@ == board_text(*gs, landing_y(gs.board, gs.current_piece)),
{
    let gy = gs.get_ghost_y();
    proof {
        lemma_landing_unique(gs.board, gs.current_piece, gy, landing_y(gs.board, gs.current_piece));
    }
    let mut ghost_piece = gs.current_piece;
    ghost_piece.y = gy;
    proof {
        let g = at_row(gs.current_piece, gy);
        assert(ghost_piece == g);
        if gy > gs.current_piece.y {
            assert(valid_position(gs.board, g));
            assert forall|i: int| 0 <= i < 4 implies #[trigger] block(g, i).0 <= i32::MAX && block(g, i).1 <= i32::MAX by {
                assert(cell_free(gs.board, block(g, i).0, block(g, i).1));
            }
        } else {
            assert(g == at_row(gs.current_piece, gs.current_piece.y));
            assert forall|i: int| 0 <= i < 4 implies #[trigger] block(g, i).0 <= i32::MAX && block(g, i).1 <= i32::MAX by {
                let up = at_row(gs.current_piece, (gs.current_piece.y + 1) as i32);
                assert(block(up, i).0 <= i32::MAX && block(up, i).1 <= i32::MAX);
            }
        }
    }
    let ghost_blocks = ghost_piece.get_blocks();
    proof {
        assert forall|i: int| 0 <= i < 4 implies #[trigger] block(gs.current_piece, i).0 <= i32::MAX
            && block(gs.current_piece, i).1 <= i32::MAX by {
            let up = at_row(gs.current_piece, (gs.current_piece.y + 1) as i32);
            assert(block(up, i).0 <= i32::MAX && block(up, i).1 <= i32::MAX);
        }
    }
    let cur_blocks = gs.current_piece.get_blocks();
    let mut out = String::new();
    push_str(&mut out, "+--------------------+\n");
    let mut y: usize = 0;
    while y < BOARD_HEIGHT
        invariant
            y <= BOARD_HEIGHT,
            gy == landing_y(gs.board, gs.current_piece),
            forall|j: int|
                0 <= j < 4 ==> (#[trigger] ghost_blocks[j]).0 == block(at_row(gs.current_piece, gy), j).0
                    && ghost_blocks[j].1 == block(at_row(gs.current_piece, gy), j).1,
            forall|j: int|
                0 <= j < 4 ==> (#[trigger] cur_blocks[j]).0 == block(gs.current_piece, j).0
                    && cur_blocks[j].1 == block(gs.current_piece, j).1,
            out@ == "+--------------------+\n"@ + rows_text(*gs, gy, y as int),
        decreases BOARD_HEIGHT - y,
    {
        push_str(&mut out, "|");
        let mut x: usize = 0;
        while x < BOARD_WIDTH
            invariant
                y < BOARD_HEIGHT,
                x <= BOARD_WIDTH,
                gy == landing_y(gs.board, gs.current_piece),
                forall|j: int|
                    0 <= j < 4 ==> (#[trigger] ghost_blocks[j]).0 == block(at_row(gs.current_piece, gy), j).0
                        && ghost_blocks[j].1 == block(at_row(gs.current_piece, gy), j).1,
                forall|j: int|
                    0 <= j < 4 ==> (#[trigger] cur_blocks[j]).0 == block(gs.current_piece, j).0
                        && cur_blocks[j].1 == block(gs.current_piece, j).1,
                out@ == "+--------------------+\n"@ + rows_text(*gs, gy, y as int) + "|"@ + row_cells_text(
                    *gs,
                    gy,
                    y as int,
                    x as int,
                ),
            decreases BOARD_WIDTH - x,
        {
            let xi = x as i32;
            let yi = y as i32;
            let on_piece = among(&cur_blocks, xi, yi);
            let on_shadow = among(&ghost_blocks, xi, yi);
            proof {
                lemma_among_occupies(cur_blocks, gs.current_piece, xi, yi);
                lemma_among_occupies(ghost_blocks, at_row(gs.current_piece, gy), xi, yi);
            }
            let text: &str = if on_piece {
                "[]"
            } else if gs.item_board[y][x].is_some() {
                "$$"
            } else if let Some(p) = gs.board[y][x] {
                piece_cell(p)
            } else if on_shadow {
                ".."
            } else {
                "  "
            };
            assert(text@ == cell_text(*gs, gy, x as int, y as int));
            push_str(&mut out, text);
            x = x + 1;
        }
        push_str(&mut out, "|\n");
        y = y + 1;
    }
    push_str(&mut out, "+--------------------+");
    out
}

/// The text view of a game in progress: level, score, lines and Zone meter,
/// the held, current and stored item names, the Zone state, the board
/// picture and a legend. The second string (nothing to speak) is empty.
pub fn render_in_game(gs: &GameState) -> (r: (String, String))
    requires
        gs.current_piece.y < i32::MAX,
        blocks_fit(at_row(gs.current_piece, (gs.current_piece.y + 1) as i32)),
    ensures
        r.0@ == in_game_text(*gs, landing_y(gs.board, gs.current_piece)),
        r.1@ == Seq::<char>::empty(),
{
    let mut text = String::new();
    push_str(&mut text, "AUDIO TETRIS\nLevel ");
    push_decimal_padded(&mut text, gs.level as u64, 2);
    push_str(&mut text, "   Score ");
    push_decimal_padded(&mut text, gs.score as u64, 8);
    push_str(&mut text, "   Lines ");
    push_decimal_padded(&mut text, gs.total_lines as u64, 3);
    push_str(&mut text, "   Zone ");
    push_decimal_padded(&mut text, gs.zone_meter as u64, 3);
    push_str(&mut text, "%\nHold: ");
    push_padded_right(&mut text, piece_name(gs.hold_piece), 10);
    push_str(&mut text, "   Current: ");
    push_padded_right(&mut text, piece_name(Some(gs.current_piece.t_type)), 10);
    push_str(&mut text, "   Item: ");
    push_padded_right(&mut text, item_name(gs.inventory), 10);
    push_str(&mut text, "\n");
    if gs.is_in_zone {
        push_str(&mut text, "Zone active: ");
        let t: u64 = if gs.zone_timer_ms > 0 { gs.zone_timer_ms as u64 } else { 0 };
        push_decimal(&mut text, t);
        push_str(&mut text, " ms");
    } else {
        push_str(&mut text, "Zone inactive");
    }
    push_str(&mut text, "\n");
    let board = render_board(gs);
    push_str(&mut text, board.as_str());
    push_str(&mut text, "\n");
    push_str(&mut text, "Legend: [] active | ## locked | .. ghost | $$ item |    empty");
    push_str(&mut text, "\nPress Escape to pause game.");
    assert(text@ =~= in_game_text(*gs, landing_y(gs.board, gs.current_piece)));
    (text, String::new())
}

} // verus!
