use audio_tetris::announce::{lock_cues, play_cues, zone_end_cues, Cue, Phrase, SoundCue};
use audio_tetris::controls::InputAction;
use audio_tetris::logic::{GameState, LockResult, Tetromino, TetrominoType};
use audio_tetris::play::PlayEvent;
use audio_tetris::settings::Difficulty;

fn game() -> GameState {
    let mut gs = GameState::new(Difficulty::Easy);
    gs.current_piece = Tetromino::new(TetrominoType::T);
    gs.item_spawned = None;
    gs.item_acquired = None;
    gs
}

fn result(cleared: u32, t_spin: bool, b2b: bool, combo: u32) -> LockResult {
    LockResult {
        cleared_lines: cleared,
        is_t_spin: t_spin,
        b2b_bonus: b2b,
        combo,
        zone_lines_cleared_this_turn: 0,
        zone_meter_full: false,
    }
}

#[test]
fn clear_message_lists_details_when_advanced() {
    let mut gs = game();
    gs.level = 2;
    gs.score = 1200;
    let cues = lock_cues(&result(2, true, true, 3), &gs, true, true, true);
    assert_eq!(cues[0], Cue::Sound(SoundCue::Clear(2)));
    assert_eq!(cues[1], Cue::Sound(SoundCue::TSpin));
    assert_eq!(cues[2], Cue::Sound(SoundCue::BackToBack));
    assert_eq!(
        cues[3],
        Cue::Say {
            phrases: vec![
                Phrase::LinesCleared { count: 2, hard_drop: true },
                Phrase::TSpinTag,
                Phrase::BackToBackTag,
                Phrase::ComboTag(3),
                Phrase::LevelScore { level: 2, score: 1200 },
            ],
            interrupt: true,
        }
    );
    assert_eq!(cues[4], Cue::Sound(SoundCue::Spawn(TetrominoType::T)));
    assert_eq!(cues.len(), 6);
}

#[test]
fn simple_details_leave_out_tags() {
    let gs = game();
    let cues = lock_cues(&result(1, true, false, 2), &gs, false, false, true);
    assert_eq!(
        cues[2],
        Cue::Say {
            phrases: vec![
                Phrase::LinesCleared { count: 1, hard_drop: false },
                Phrase::LevelScore { level: 1, score: 0 },
            ],
            interrupt: true,
        }
    );
}

#[test]
fn quiet_lock_and_game_over() {
    let mut gs = game();
    gs.is_game_over = true;
    gs.score = 77;
    let cues = lock_cues(&result(0, false, false, 0), &gs, false, true, true);
    assert_eq!(
        cues,
        vec![
            Cue::Sound(SoundCue::Lock),
            Cue::Say { phrases: vec![Phrase::GameOver(77)], interrupt: true },
        ]
    );
    let cues = lock_cues(&result(0, false, false, 0), &gs, true, true, true);
    assert_eq!(cues[0], Cue::Say { phrases: vec![Phrase::HardDropScore(77)], interrupt: true });
}

#[test]
fn zone_end_is_announced() {
    assert_eq!(
        zone_end_cues(5, 900),
        vec![
            Cue::Sound(SoundCue::Clear(5)),
            Cue::Say { phrases: vec![Phrase::ZoneEnded { cleared: 5, score: 900 }], interrupt: true },
        ]
    );
    assert_eq!(zone_end_cues(0, 900), vec![Cue::Say { phrases: vec![Phrase::ZoneEndedEmpty], interrupt: true }]);
}

#[test]
fn moves_name_columns() {
    let mut gs = game();
    let e = gs.play_action(InputAction::Left);
    let cues = play_cues(&e, InputAction::Left, &gs, false, false);
    // T piece at column 2 after one move: cells in columns 3 to 5.
    assert_eq!(cues[0], Cue::Sound(SoundCue::HorizontalMove(3)));
    assert_eq!(cues[1], Cue::Say { phrases: vec![Phrase::MovedLeft(3)], interrupt: true });
    let cues = play_cues(&PlayEvent::Shifted(false), InputAction::Left, &gs, false, false);
    assert_eq!(cues, vec![Cue::Sound(SoundCue::Aligned)]);
    let cues = play_cues(&PlayEvent::Zone(false), InputAction::Zone, &gs, false, false);
    assert_eq!(cues[0], Cue::Sound(SoundCue::HoldDenied));
}
