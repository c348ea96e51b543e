use audio_tetris::controls::InputAction;
use audio_tetris::logic::{GameState, ItemType, Tetromino, TetrominoType, BOARD_HEIGHT, BOARD_WIDTH};
use audio_tetris::screens::menu::{navigate, MenuContext};
use audio_tetris::screens::AppScreen;
use audio_tetris::settings::Difficulty;

fn empty_game(t: TetrominoType) -> GameState {
    let mut gs = GameState::new(Difficulty::Easy);
    gs.current_piece = Tetromino::new(t);
    gs.item_spawned = None;
    gs
}

#[test]
fn four_line_clear_leaves_no_full_row_and_scores() {
    let mut gs = empty_game(TetrominoType::I);
    for y in 16..20 {
        for x in 0..9 {
            gs.board[y][x] = Some(TetrominoType::J);
        }
    }
    gs.current_piece.rotation = 1;
    gs.current_piece.x = 7;
    let before = gs.score;
    let r = gs.hard_drop();
    assert_eq!(r.cleared_lines, 4);
    assert!(gs.score > before);
    for y in 0..BOARD_HEIGHT {
        assert!((0..BOARD_WIDTH).any(|x| gs.board[y][x].is_none()));
    }
}

#[test]
fn second_hold_is_refused() {
    let mut gs = empty_game(TetrominoType::T);
    assert!(gs.hold().is_some());
    let snapshot = (gs.current_piece.t_type, gs.hold_piece, gs.bag.clone());
    assert!(gs.hold().is_none());
    assert_eq!((gs.current_piece.t_type, gs.hold_piece, gs.bag.clone()), snapshot);
}

#[test]
fn left_then_right_returns() {
    let mut gs = empty_game(TetrominoType::L);
    let start = gs.current_piece;
    assert!(gs.move_left());
    assert!(gs.move_right());
    assert_eq!(gs.current_piece, start);
}

#[test]
fn drawn_shapes_do_not_repeat_within_a_bag() {
    let mut gs = GameState::new(Difficulty::Easy);
    gs.bag.clear();
    let mut seen = Vec::new();
    for _ in 0..7 {
        let p = gs.next_piece();
        assert!(!seen.contains(&p.t_type));
        seen.push(p.t_type);
    }
}

#[test]
fn tallest_column_is_the_radar_maximum() {
    let mut gs = empty_game(TetrominoType::O);
    gs.board[12][3] = Some(TetrominoType::S);
    gs.board[17][8] = Some(TetrominoType::Z);
    let topo = gs.get_topography();
    assert_eq!(gs.max_column_height(), *topo.iter().max().unwrap());
    assert_eq!(gs.max_column_height(), 8);
}

#[test]
fn magnet_settles_columns_without_gaps() {
    let mut gs = empty_game(TetrominoType::O);
    gs.board[5][2] = Some(TetrominoType::T);
    gs.board[9][2] = Some(TetrominoType::L);
    gs.board[19][2] = Some(TetrominoType::I);
    gs.inventory = Some(ItemType::Magnet);
    assert_eq!(gs.use_item(), Some(ItemType::Magnet));
    for y in 0..BOARD_HEIGHT {
        assert_eq!(gs.board[y][2].is_some(), y >= 17);
    }
    assert_eq!(gs.board[17][2], Some(TetrominoType::T));
    assert_eq!(gs.board[18][2], Some(TetrominoType::L));
}

#[test]
fn zone_counts_lines_instead_of_scoring() {
    let mut gs = empty_game(TetrominoType::I);
    for x in 0..6 {
        gs.board[19][x] = Some(TetrominoType::J);
    }
    gs.is_in_zone = true;
    gs.zone_timer_ms = 5000;
    gs.current_piece.x = 6;
    gs.current_piece.y = 18;
    let r = gs.lock_piece();
    assert_eq!(r.cleared_lines, 0);
    assert_eq!(r.zone_lines_cleared_this_turn, 1);
    assert_eq!(gs.zone_lines_cleared, 1);
    assert_eq!(gs.score, 0);
    assert!(gs.board[19].iter().all(|c| c.is_none()));
}

#[test]
fn menus_keep_the_cursor_on_an_entry() {
    let ctx = MenuContext { game_in_progress: false, leaderboard_items: 4, how_to_play_lines: 14, about_lines: 9 };
    let mut screen = AppScreen::Settings { selection: 0 };
    for step in 0..25 {
        let action = if step % 3 == 0 { InputAction::Up } else { InputAction::Down };
        screen = navigate(&screen, action, ctx).screen;
        match screen {
            AppScreen::Settings { selection } => assert!(selection < 10),
            _ => panic!("left the settings"),
        }
    }
    let mut board = AppScreen::Leaderboard { selection: 3 };
    board = navigate(&board, InputAction::Down, ctx).screen;
    assert_eq!(board, AppScreen::Leaderboard { selection: 0 });
}

#[test]
fn counter_clockwise_turn_undoes_clockwise_turn() {
    for t in [TetrominoType::I, TetrominoType::J, TetrominoType::L, TetrominoType::S, TetrominoType::T, TetrominoType::Z] {
        let mut gs = empty_game(t);
        gs.current_piece.y = 5;
        let start = gs.current_piece;
        assert!(gs.rotate_piece());
        assert_eq!(gs.current_piece.rotation, 1);
        assert!(gs.rotate_piece_ccw());
        assert_eq!(gs.current_piece, start);
        assert!(gs.last_move_was_spin);
    }
}

#[test]
fn zone_meter_charges_by_lines_up_to_full() {
    let mut gs = empty_game(TetrominoType::I);
    for x in 0..9 {
        gs.board[19][x] = Some(TetrominoType::J);
        gs.board[18][x] = Some(TetrominoType::J);
    }
    gs.current_piece.rotation = 1;
    gs.current_piece.x = 7;
    gs.zone_meter = 70;
    let r = gs.hard_drop();
    assert_eq!(r.cleared_lines, 2);
    assert_eq!(gs.zone_meter, 90);
    assert!(!r.zone_meter_full);

    let mut full = empty_game(TetrominoType::I);
    for y in 16..20 {
        for x in 0..9 {
            full.board[y][x] = Some(TetrominoType::J);
        }
    }
    full.current_piece.rotation = 1;
    full.current_piece.x = 7;
    full.zone_meter = 60;
    let r = full.hard_drop();
    assert_eq!(r.cleared_lines, 4);
    assert_eq!(full.zone_meter, 100);
    assert!(r.zone_meter_full);

    let mut quiet = empty_game(TetrominoType::O);
    quiet.zone_meter = 40;
    let r = quiet.hard_drop();
    assert_eq!(r.cleared_lines, 0);
    assert_eq!(quiet.zone_meter, 40);
    assert!(!r.zone_meter_full);
}
