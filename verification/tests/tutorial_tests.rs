use audio_tetris::announce::{lesson_cues, Cue, Phrase, SoundCue};
use audio_tetris::controls::InputAction;
use audio_tetris::logic::{ItemType, TetrominoType};
use audio_tetris::screens::tutorial_screen::{
    screen_after_lesson, LessonPage, TutorialEvent, TutorialStage, TutorialState,
};
use audio_tetris::screens::AppScreen;

#[test]
fn test_tutorial_state_initialization() {
    let state = TutorialState::new(1);
    assert_eq!(state.stage, 1);
    assert!(!state.reached_left);
    assert!(!state.reached_right);
}

#[test]
fn stage_numbers_round_trip() {
    for s in 1..=9 {
        let stage = TutorialStage::from_usize(s);
        assert_eq!(stage.as_usize(), s);
    }
    assert_eq!(TutorialStage::from_usize(0), TutorialStage::Graduation);
    assert_eq!(TutorialStage::from_usize(42), TutorialStage::Graduation);
}

#[test]
fn new_clamps_the_stage() {
    assert_eq!(TutorialState::new(0).stage, 1);
    assert_eq!(TutorialState::new(12).stage, 9);
}

#[test]
fn lesson_boards_are_set_up() {
    let s5 = TutorialState::new(5);
    for col in 0..10 {
        assert_eq!(s5.game_state.board[19][col].is_some(), col != 4);
    }
    assert_eq!(s5.game_state.current_piece.t_type, TetrominoType::O);
    assert_eq!(s5.game_state.current_piece.x, 0);

    let s6 = TutorialState::new(6);
    assert!(s6.game_state.board[12][8].is_some());
    assert!(s6.game_state.board[11][8].is_none());
    assert!(s6.game_state.board[19][5].is_none());

    let s7 = TutorialState::new(7);
    assert_eq!(s7.game_state.zone_meter, 100);
    assert!(s7.game_state.board[18][0].is_some() && s7.game_state.board[18][4].is_none());

    let s8 = TutorialState::new(8);
    assert_eq!(s8.game_state.inventory, Some(ItemType::Magnet));
    assert!(s8.game_state.board[17][2].is_some() && s8.game_state.board[16][7].is_some());
    assert_eq!(s8.game_state.fall_timer_ms, 0);
}

#[test]
fn reaching_both_walls_finishes_the_movement_lesson() {
    let mut ts = TutorialState::new(1);
    let mut last = TutorialEvent::Nothing;
    for _ in 0..4 {
        assert!(ts.action_fits_check(InputAction::Left));
        last = ts.apply_action(InputAction::Left);
    }
    assert_eq!(last, TutorialEvent::Lateral { moved: true, reached_edge: true, column: 0 });
    assert!(ts.reached_left);
    assert_eq!(ts.page(), LessonPage::Movement { left_done: true, right_done: false });
    for _ in 0..8 {
        assert!(ts.action_fits_check(InputAction::Right));
        ts.apply_action(InputAction::Right);
        if ts.stage == 2 {
            break;
        }
    }
    assert_eq!(ts.stage, 2);
    assert_eq!(ts.soft_drops, 0);
    assert_eq!(ts.game_state.current_piece.t_type, TetrominoType::I);
}

#[test]
fn drops_and_lessons_advance_one_at_a_time() {
    let mut ts = TutorialState::new(2);
    assert_eq!(ts.apply_action(InputAction::Down), TutorialEvent::SoftDrop(true));
    assert_eq!(ts.soft_drops, 1);
    assert!(ts.action_fits_check(InputAction::HardDrop));
    assert_eq!(ts.apply_action(InputAction::HardDrop), TutorialEvent::LessonDrop { thud: true, cleared: 0 });
    assert_eq!(ts.stage, 3);
    assert_eq!(ts.apply_action(InputAction::PieceInfo), TutorialEvent::Inspect);
    assert!(ts.inspected);
    assert_eq!(ts.apply_action(InputAction::RotateRight), TutorialEvent::Turn(true));
    assert!(ts.rotated_cw);
    ts.apply_action(InputAction::HardDrop);
    assert_eq!(ts.stage, 4);
    assert_eq!(ts.apply_action(InputAction::Hold), TutorialEvent::HoldFirst);
    assert_eq!(ts.game_state.hold_piece, Some(TetrominoType::S));
    assert_eq!(ts.apply_action(InputAction::Hold), TutorialEvent::HoldSwap);
    assert_eq!(ts.apply_action(InputAction::Hold), TutorialEvent::HoldDenied);
    assert!(ts.tried_denied);
    ts.apply_action(InputAction::HardDrop);
    assert_eq!((ts.stage, ts.sub_step), (5, 0));
    assert_eq!(ts.page(), LessonPage::SingleLine);
    assert_eq!(ts.apply_action(InputAction::HardDrop), TutorialEvent::LessonDrop { thud: true, cleared: 1 });
    assert_eq!((ts.stage, ts.sub_step), (5, 1));
    assert_eq!(ts.page(), LessonPage::FourLines);
    assert_eq!(ts.apply_action(InputAction::HardDrop), TutorialEvent::LessonDrop { thud: true, cleared: 4 });
    assert_eq!(ts.stage, 6);
    assert_eq!(ts.apply_action(InputAction::Radar), TutorialEvent::RadarScan);
    assert_eq!(ts.apply_action(InputAction::Select), TutorialEvent::Skip);
    assert_eq!(ts.stage, 7);
    assert_eq!(ts.apply_action(InputAction::Zone), TutorialEvent::ZoneEnter);
    assert_eq!(ts.apply_action(InputAction::HardDrop), TutorialEvent::LessonDrop { thud: true, cleared: 2 });
    assert_eq!(ts.stage, 8);
    assert_eq!(ts.apply_action(InputAction::UseItem), TutorialEvent::UseItem(ItemType::Magnet));
    assert_eq!(ts.page(), LessonPage::Items { item: 1 });
    assert_eq!(ts.apply_action(InputAction::UseItem), TutorialEvent::UseItem(ItemType::Laser));
    assert_eq!(ts.apply_action(InputAction::UseItem), TutorialEvent::UseItem(ItemType::Nuke));
    assert_eq!(ts.stage, 9);
    assert_eq!(ts.page(), LessonPage::Graduation);
    let e = ts.apply_action(InputAction::Select);
    assert_eq!(e, TutorialEvent::Graduate);
    assert_eq!(screen_after_lesson(e, ts.stage), AppScreen::MainMenu { selection: 0 });
}

#[test]
fn off_lesson_actions_do_nothing() {
    let mut ts = TutorialState::new(3);
    assert_eq!(ts.apply_action(InputAction::Radar), TutorialEvent::Nothing);
    assert_eq!(ts.apply_action(InputAction::Left), TutorialEvent::Nothing);
    assert_eq!(ts.stage, 3);
    assert_eq!(ts.apply_action(InputAction::Back), TutorialEvent::Exit);
    assert_eq!(screen_after_lesson(TutorialEvent::Nothing, 3), AppScreen::Tutorial { stage: 3 });
}

#[test]
fn lesson_moves_are_heard() {
    let mut ts = TutorialState::new(1);
    let before = ts.stage;
    let e = ts.apply_action(InputAction::Left);
    assert_eq!(e, TutorialEvent::Lateral { moved: true, reached_edge: false, column: 3 });
    let cues = lesson_cues(&e, InputAction::Left, before, &ts);
    assert_eq!(
        cues,
        vec![
            Cue::Sound(SoundCue::HorizontalMove(3)),
            Cue::Say { phrases: vec![Phrase::MovedTo { left: true, column: 4 }], interrupt: true },
        ]
    );
    for _ in 0..2 {
        ts.apply_action(InputAction::Left);
    }
    let e = ts.apply_action(InputAction::Left);
    let cues = lesson_cues(&e, InputAction::Left, before, &ts);
    assert_eq!(
        cues,
        vec![
            Cue::Sound(SoundCue::HorizontalMove(0)),
            Cue::Sound(SoundCue::Aligned),
            Cue::Say { phrases: vec![Phrase::EdgeReached { left: true }], interrupt: true },
        ]
    );
    ts.apply_action(InputAction::Left);
    let e = ts.apply_action(InputAction::Left);
    assert_eq!(e, TutorialEvent::Lateral { moved: false, reached_edge: false, column: -1 });
    assert_eq!(lesson_cues(&e, InputAction::Left, before, &ts), vec![Cue::Sound(SoundCue::Aligned)]);
}

#[test]
fn leaving_and_finishing_lessons_are_heard() {
    let ts = TutorialState::new(3);
    assert_eq!(
        lesson_cues(&TutorialEvent::Exit, InputAction::Back, 3, &ts),
        vec![
            Cue::Sound(SoundCue::MenuSelect),
            Cue::Say { phrases: vec![Phrase::TutorialExited], interrupt: true },
        ]
    );
    let next = TutorialState::new(4);
    assert_eq!(
        lesson_cues(&TutorialEvent::LessonDrop { thud: true, cleared: 0 }, InputAction::HardDrop, 3, &next),
        vec![Cue::Sound(SoundCue::HardDrop), Cue::Sound(SoundCue::MenuSelect)]
    );
}
