use audio_tetris::controls::{action_for_key, screen_reader_toggle, should_use_menu_music, InputAction, ReaderToggle};
use audio_tetris::screens::menu::{
    clamp_selection, menu_down, menu_text, menu_up, navigate, update_entries, update_speech, MenuContext,
    MenuEffect, MenuSound, SettingChange, UpdateEntry, UpdateSpeech,
};
use audio_tetris::screens::{AppScreen, ConfirmAction};
use audio_tetris::updater::{UpdateInfo, UpdateStatus};

fn ctx(in_prog: bool) -> MenuContext {
    MenuContext { game_in_progress: in_prog, leaderboard_items: 3, how_to_play_lines: 14, about_lines: 11 }
}

#[test]
fn keys_map_to_actions() {
    assert_eq!(action_for_key(315, false), Some(InputAction::Up));
    assert_eq!(action_for_key(315, true), None);
    assert_eq!(action_for_key(119, false), Some(InputAction::Up));
    assert_eq!(action_for_key(32, true), Some(InputAction::HardDrop));
    assert_eq!(action_for_key(27, true), Some(InputAction::Back));
    assert_eq!(action_for_key(306, true), Some(InputAction::UseItem));
    assert_eq!(action_for_key(104, false), Some(InputAction::HelpMode));
    assert_eq!(action_for_key(1, false), None);
}

#[test]
fn menu_music_only_off_during_play() {
    assert!(!should_use_menu_music(&AppScreen::InGame, true));
    assert!(!should_use_menu_music(&AppScreen::PauseMenu { selection: 0 }, true));
    assert!(should_use_menu_music(&AppScreen::PauseMenu { selection: 0 }, false));
    assert!(!should_use_menu_music(&AppScreen::ConfirmDialog { action: ConfirmAction::AbandonGame }, true));
    assert!(should_use_menu_music(&AppScreen::MainMenu { selection: 0 }, true));
}

#[test]
fn screen_reader_toggle_needs_confirmation_within_five_seconds() {
    assert_eq!(screen_reader_toggle(true, None), ReaderToggle::Arm);
    assert_eq!(screen_reader_toggle(true, Some(4000)), ReaderToggle::Confirm);
    assert_eq!(screen_reader_toggle(true, Some(5001)), ReaderToggle::Arm);
    assert_eq!(screen_reader_toggle(false, Some(100)), ReaderToggle::Cancel);
    assert_eq!(screen_reader_toggle(false, None), ReaderToggle::Ignore);
}

#[test]
fn cursor_wraps_round_menus() {
    assert_eq!(menu_up(0, 9), 8);
    assert_eq!(menu_down(8, 9), 0);
    assert_eq!(menu_up(menu_down(4, 9), 9), 4);
    let n = navigate(&AppScreen::MainMenu { selection: 0 }, InputAction::Up, ctx(false));
    assert_eq!(n.screen, AppScreen::MainMenu { selection: 8 });
    assert_eq!(n.sound, MenuSound::Move);
    let n = navigate(&AppScreen::MainMenu { selection: 0 }, InputAction::Up, ctx(true));
    assert_eq!(n.screen, AppScreen::MainMenu { selection: 10 });
}

#[test]
fn main_menu_choices() {
    let n = navigate(&AppScreen::MainMenu { selection: 0 }, InputAction::Select, ctx(false));
    assert_eq!(n.effect, MenuEffect::NewGame);
    assert_eq!(n.screen, AppScreen::InGame);
    let n = navigate(&AppScreen::MainMenu { selection: 1 }, InputAction::Select, ctx(false));
    assert_eq!(n.effect, MenuEffect::StartTutorial { end_game: false });
    assert!(n.initial_load);
    let n = navigate(&AppScreen::MainMenu { selection: 0 }, InputAction::Select, ctx(true));
    assert_eq!(n.effect, MenuEffect::Resume);
    let n = navigate(&AppScreen::MainMenu { selection: 10 }, InputAction::Select, ctx(true));
    assert_eq!(n.screen, AppScreen::ConfirmDialog { action: ConfirmAction::QuitApp });
    let n = navigate(&AppScreen::MainMenu { selection: 3 }, InputAction::HelpMode, ctx(false));
    assert_eq!(n.screen, AppScreen::KeyDescriber { esc_count: 0 });
}

#[test]
fn start_pauses_and_resumes() {
    let n = navigate(&AppScreen::InGame, InputAction::Start, ctx(true));
    assert_eq!(n.screen, AppScreen::PauseMenu { selection: 0 });
    assert_eq!(n.effect, MenuEffect::Pause);
    let n = navigate(&AppScreen::PauseMenu { selection: 3 }, InputAction::Start, ctx(true));
    assert_eq!(n.screen, AppScreen::InGame);
    assert_eq!(n.effect, MenuEffect::Resume);
    let n = navigate(&AppScreen::InGame, InputAction::Left, ctx(true));
    assert_eq!(n.effect, MenuEffect::Play);
}

#[test]
fn save_and_load_slots() {
    let n = navigate(&AppScreen::SaveScreen { selection: 2 }, InputAction::Select, ctx(true));
    assert_eq!(n.effect, MenuEffect::SaveSlot(3));
    assert_eq!(n.screen, AppScreen::PauseMenu { selection: 1 });
    let n = navigate(&AppScreen::LoadScreen { selection: 4 }, InputAction::Select, ctx(false));
    assert_eq!(n.effect, MenuEffect::LoadSlot(5));
    let n = navigate(&AppScreen::LoadScreen { selection: 5 }, InputAction::Select, ctx(false));
    assert_eq!(n.screen, AppScreen::MainMenu { selection: 2 });
    let n = navigate(&AppScreen::LoadScreen { selection: 0 }, InputAction::Back, ctx(true));
    assert_eq!(n.screen, AppScreen::PauseMenu { selection: 2 });
}

#[test]
fn settings_adjustments() {
    let n = navigate(&AppScreen::Settings { selection: 1 }, InputAction::Left, ctx(false));
    assert_eq!(n.effect, MenuEffect::Adjust(SettingChange::Difficulty(false)));
    assert_eq!(n.sound, MenuSound::Move);
    let n = navigate(&AppScreen::Settings { selection: 6 }, InputAction::Right, ctx(false));
    assert_eq!(n.effect, MenuEffect::Adjust(SettingChange::ToggleMusic));
    assert_eq!(n.sound, MenuSound::Silent);
    let n = navigate(&AppScreen::Settings { selection: 9 }, InputAction::Select, ctx(true));
    assert_eq!(n.screen, AppScreen::PauseMenu { selection: 4 });
    let n = navigate(&AppScreen::VisualSettings { selection: 2 }, InputAction::Select, ctx(true));
    assert_eq!(n.screen, AppScreen::Settings { selection: 2 });
    let n = navigate(&AppScreen::SpeechVerbosity { selection: 2 }, InputAction::Left, ctx(true));
    assert_eq!(n.effect, MenuEffect::Adjust(SettingChange::ToggleZoneAlerts));
}

#[test]
fn key_describer_needs_two_escapes() {
    let n = navigate(&AppScreen::KeyDescriber { esc_count: 0 }, InputAction::Back, ctx(false));
    assert_eq!(n.screen, AppScreen::KeyDescriber { esc_count: 1 });
    assert_eq!(n.effect, MenuEffect::EscAgain);
    let n = navigate(&AppScreen::KeyDescriber { esc_count: 1 }, InputAction::Back, ctx(false));
    assert_eq!(n.screen, AppScreen::MainMenu { selection: 0 });
    let n = navigate(&AppScreen::KeyDescriber { esc_count: 1 }, InputAction::Mute, ctx(false));
    assert_eq!(n.effect, MenuEffect::Describe(InputAction::Mute));
    assert_eq!(n.screen, AppScreen::KeyDescriber { esc_count: 0 });
}

#[test]
fn music_keys_switch_tracks_only_during_play() {
    let n = navigate(&AppScreen::InGame, InputAction::NextTrack, ctx(true));
    assert_eq!(n.effect, MenuEffect::NextTrack);
    let n = navigate(&AppScreen::MainMenu { selection: 0 }, InputAction::NextTrack, ctx(false));
    assert_eq!(n.effect, MenuEffect::Nothing);
    let n = navigate(&AppScreen::Settings { selection: 0 }, InputAction::Mute, ctx(false));
    assert_eq!(n.effect, MenuEffect::ToggleMute);
    assert!(n.render);
}

#[test]
fn update_screen_flow() {
    let info = UpdateInfo { version: "v2.0.0".to_string(), release_notes: "n".to_string(), download_url: "u".to_string() };
    let avail = AppScreen::Update { selection: 0, status: UpdateStatus::Available(info.clone()) };
    let n = navigate(&avail, InputAction::Select, ctx(false));
    assert_eq!(n.screen, AppScreen::ConfirmDialog { action: ConfirmAction::UpdateApp(info.clone()) });
    let n = navigate(&n.screen, InputAction::Select, ctx(false));
    assert_eq!(n.effect, MenuEffect::DownloadUpdate("u".to_string()));
    let idle = AppScreen::Update { selection: 0, status: UpdateStatus::Idle };
    let n = navigate(&idle, InputAction::Select, ctx(false));
    assert_eq!(n.effect, MenuEffect::CheckUpdates);
    assert_eq!(n.screen, AppScreen::Update { selection: 0, status: UpdateStatus::Checking });
    assert_eq!(update_entries(&UpdateStatus::Downloading), vec![UpdateEntry::Back]);
    assert_eq!(update_entries(&UpdateStatus::Available(info)).len(), 3);
    assert_eq!(update_speech(&UpdateStatus::Checking, 1), UpdateSpeech::Checking);
    assert_eq!(update_speech(&UpdateStatus::Idle, 0), UpdateSpeech::Entry);
}

#[test]
fn pages_scroll_and_stop_at_ends() {
    let n = navigate(&AppScreen::HowToPlay { scroll_line: 0 }, InputAction::Up, ctx(false));
    assert_eq!(n.screen, AppScreen::HowToPlay { scroll_line: 0 });
    assert!(!n.render);
    let n = navigate(&AppScreen::About { scroll_line: 9 }, InputAction::Down, ctx(false));
    assert_eq!(n.screen, AppScreen::About { scroll_line: 10 });
    let n = navigate(&AppScreen::About { scroll_line: 10 }, InputAction::Down, ctx(false));
    assert_eq!(n.screen, AppScreen::About { scroll_line: 10 });
    let n = navigate(&AppScreen::About { scroll_line: 3 }, InputAction::Back, ctx(true));
    assert_eq!(n.screen, AppScreen::MainMenu { selection: 8 });
}

#[test]
fn menu_text_marks_the_chosen_entry() {
    let opts = vec!["New Game".to_string(), "Quit".to_string()];
    let text = menu_text("Title\n\n", &opts, 1);
    assert_eq!(text, "Title\n\n   New Game\n->   Quit\n");
    let text = menu_text("", &opts, 7);
    assert_eq!(text, "   New Game\n->   Quit\n");
    assert_eq!(clamp_selection(7, 2), 1);
    assert_eq!(clamp_selection(3, 0), 0);
}
