use audio_tetris::controls::InputAction;
use audio_tetris::logic::{GameState, ItemType, Tetromino, TetrominoType};
use audio_tetris::music::{next_track_index, prev_track_index};
use audio_tetris::play::{PlayEvent, LOCK_DELAY_MS};
use audio_tetris::settings::Difficulty;

fn fixed_game() -> GameState {
    let mut gs = GameState::new(Difficulty::Easy);
    gs.current_piece = Tetromino::new(TetrominoType::O);
    gs
}

#[test]
fn gravity_moves_piece_after_fall_interval() {
    let mut gs = fixed_game();
    assert!(gs.tick_fits_check(16));
    let r = gs.tick(16);
    assert!(r.locked.is_none() && !r.lock_warning && r.zone_ended.is_none());
    assert_eq!(gs.fall_timer_ms, 16);
    assert_eq!(gs.current_piece.y, 0);
    gs.fall_timer_ms = 990;
    gs.tick(16);
    assert_eq!(gs.fall_timer_ms, 0);
    assert_eq!(gs.current_piece.y, 1);
}

#[test]
fn resting_piece_starts_lock_delay_then_locks() {
    let mut gs = fixed_game();
    gs.current_piece.y = 18;
    gs.fall_timer_ms = 1000;
    gs.tick(16);
    assert!(gs.lock_delay_active);
    assert_eq!(gs.lock_delay_timer_ms, LOCK_DELAY_MS);
    gs.lock_delay_timer_ms = 210;
    let r = gs.tick(16);
    assert!(r.lock_warning);
    assert!(r.locked.is_none());
    gs.lock_delay_timer_ms = 10;
    assert!(gs.tick_fits_check(16));
    let r = gs.tick(16);
    let res = r.locked.expect("piece locks");
    assert_eq!(res.cleared_lines, 0);
    assert!(!gs.lock_delay_active);
    assert!(gs.board[19][4].is_some() && gs.board[18][5].is_some());
}

#[test]
fn zone_runs_out_and_pays_bonus() {
    let mut gs = fixed_game();
    gs.is_in_zone = true;
    gs.zone_timer_ms = 10;
    gs.zone_lines_cleared = 4;
    gs.zone_meter = 100;
    gs.level = 2;
    let r = gs.tick(16);
    assert_eq!(r.zone_ended, Some(4));
    assert!(!gs.is_in_zone);
    assert_eq!(gs.zone_meter, 0);
    // 100 * 4 * 4 * 2 (four lines or more) * level 2
    assert_eq!(gs.score, 6400);
}

#[test]
fn game_over_stops_the_clock() {
    let mut gs = fixed_game();
    gs.is_game_over = true;
    gs.fall_timer_ms = 5;
    let r = gs.tick(16);
    assert!(r.locked.is_none());
    assert_eq!(gs.fall_timer_ms, 5);
}

#[test]
fn play_actions_move_and_report() {
    let mut gs = fixed_game();
    assert!(gs.action_fits_check(InputAction::Left));
    match gs.play_action(InputAction::Left) {
        PlayEvent::Shifted(true) => {}
        _ => panic!("expected a move"),
    }
    assert_eq!(gs.current_piece.x, 2);
    match gs.play_action(InputAction::Back) {
        PlayEvent::Pause => {}
        _ => panic!("expected a pause"),
    }
    match gs.play_action(InputAction::Select) {
        PlayEvent::Nothing => {}
        _ => panic!("select does nothing in a game"),
    }
    match gs.play_action(InputAction::Zone) {
        PlayEvent::Zone(false) => {}
        _ => panic!("the meter is empty"),
    }
    gs.zone_meter = 100;
    match gs.play_action(InputAction::Zone) {
        PlayEvent::Zone(true) => {}
        _ => panic!("a full meter starts the Zone"),
    }
    assert!(gs.is_in_zone);
    assert_eq!(gs.zone_timer_ms, 10000);
}

#[test]
fn soft_drop_onto_the_stack_starts_lock_delay() {
    let mut gs = fixed_game();
    gs.current_piece.y = 17;
    assert!(gs.action_fits_check(InputAction::Down));
    match gs.play_action(InputAction::Down) {
        PlayEvent::SoftDropped(true) => {}
        _ => panic!("expected a drop"),
    }
    assert_eq!(gs.current_piece.y, 18);
    assert!(gs.lock_delay_active);
    assert_eq!(gs.lock_delay_timer_ms, 500);
}

#[test]
fn hard_drop_through_play_action_locks_at_bottom() {
    let mut gs = fixed_game();
    assert!(gs.action_fits_check(InputAction::HardDrop));
    match gs.play_action(InputAction::HardDrop) {
        PlayEvent::HardDropped(r) => assert_eq!(r.cleared_lines, 0),
        _ => panic!("expected a hard drop"),
    }
    assert!(gs.board[19][4].is_some());
    assert!(gs.board[19][5].is_some());
    assert!(gs.board[18][4].is_some());
}

#[test]
fn item_action_uses_inventory() {
    let mut gs = fixed_game();
    match gs.play_action(InputAction::UseItem) {
        PlayEvent::Item(None) => {}
        _ => panic!("nothing to use"),
    }
    gs.inventory = Some(ItemType::Nuke);
    gs.board[19][0] = Some(TetrominoType::I);
    gs.board[10][0] = Some(TetrominoType::I);
    match gs.play_action(InputAction::UseItem) {
        PlayEvent::Item(Some(ItemType::Nuke)) => {}
        _ => panic!("the nuke is used"),
    }
    assert!(gs.inventory.is_none());
    assert!(gs.board[19][0].is_none());
    assert!(gs.board[14][0].is_some());
}

#[test]
fn range_checks_reject_extreme_positions() {
    let mut gs = fixed_game();
    gs.current_piece.x = i32::MAX;
    assert!(!gs.action_fits_check(InputAction::Right));
    gs.fall_timer_ms = i32::MAX;
    assert!(!gs.tick_fits_check(16));
}

#[test]
fn music_tracks_wrap_both_ways() {
    assert_eq!(next_track_index(0, 3), 1);
    assert_eq!(next_track_index(2, 3), 0);
    assert_eq!(prev_track_index(0, 3), 2);
    assert_eq!(prev_track_index(next_track_index(1, 3), 3), 1);
}
