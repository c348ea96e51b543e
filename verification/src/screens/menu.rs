//! Moving between screens: what an action does on each menu, which screen
//! comes next, and what the application must do on the way.
use vstd::prelude::*;
use crate::controls::{menu_music, should_use_menu_music, InputAction};
use crate::screens::{AppScreen, ConfirmAction};
use crate::text::push_str;
use crate::updater::{copy_update_info, copy_update_status, UpdateStatus};

verus! {

/// Entries of the main menu with no game in progress.
pub const MAIN_MENU_LEN: usize = 9;

/// Entries of the main menu while a game is in progress.
pub const MAIN_MENU_LEN_IN_GAME: usize = 11;

/// Entries of the pause menu.
pub const PAUSE_MENU_LEN: usize = 5;

/// Entries of the save and load screens: five slots and Back.
pub const SLOT_MENU_LEN: usize = 6;

/// Entries of the settings screen.
pub const SETTINGS_LEN: usize = 10;

/// Entries of the visual settings screen.
pub const VISUAL_SETTINGS_LEN: usize = 3;

/// Entries of the speech verbosity screen.
pub const SPEECH_SETTINGS_LEN: usize = 4;

/// Sound played when an action is handled.
#[derive(Clone, Copy, PartialEq, Eq, Debug, Structural)]
pub enum MenuSound {
    Silent,
    Move,
    Select,
}

/// A change to the player's settings.
#[derive(Clone, Copy, PartialEq, Eq, Debug, Structural)]
pub enum SettingChange {
    /// Next (`true`) or previous language.
    Language(bool),
    /// Next (`true`) or previous difficulty.
    Difficulty(bool),
    /// Voice volume up (`true`) or down by one step.
    VoiceVolume(bool),
    /// Effects volume up (`true`) or down by one step.
    SfxVolume(bool),
    /// Music on or off.
    ToggleMusic,
    /// Music volume up (`true`) or down by one step.
    MusicVolume(bool),
    /// Automatic update checks on or off.
    ToggleAutoUpdate,
    /// Next (`true`) or previous window size.
    WindowSize(bool),
    /// Next (`true`) or previous font scale.
    FontScale(bool),
    /// Terse or descriptive piece names.
    TogglePieceCallouts,
    /// Advanced or simple scoring details.
    ToggleScoringDetails,
    /// Zone alerts on or off.
    ToggleZoneAlerts,
    /// Nothing on this entry changes; the settings are saved all the same.
    Unchanged,
}

/// What the application does besides showing the next screen.
#[derive(Clone, PartialEq, Debug)]
pub enum MenuEffect {
    /// Nothing more.
    Nothing,
    /// The game resumes; "resumed" is spoken.
    Resume,
    /// The game pauses; "paused" is spoken.
    Pause,
    /// A new game starts at the chosen difficulty.
    NewGame,
    /// The tutorial starts at its first lesson; `end_game` ends the game in
    /// progress first.
    StartTutorial { end_game: bool },
    /// The game in progress is abandoned.
    AbandonGame,
    /// The application closes.
    Quit,
    /// The game is saved into this slot (1 to 5); only when that works is the
    /// next screen shown.
    SaveSlot(usize),
    /// The game in this slot (1 to 5) is loaded; only when that works is the
    /// next screen shown (an empty slot is announced instead).
    LoadSlot(usize),
    /// The selected entry is read out.
    SpeakItem,
    /// The whole page is read out.
    ReadAll,
    /// A setting changes and the settings are saved.
    Adjust(SettingChange),
    /// An update check starts in the background.
    CheckUpdates,
    /// The update at this address is downloaded and installed.
    DownloadUpdate(String),
    /// The key describer starts; its introduction is spoken.
    HelpIntro,
    /// The key describer asks for a second Escape.
    EscAgain,
    /// The key describer ends.
    ExitHelp,
    /// The key describer names what this action does.
    Describe(InputAction),
    /// The next music track plays.
    NextTrack,
    /// The previous music track plays.
    PrevTrack,
    /// Music is muted or unmuted, and the setting saved.
    ToggleMute,
    /// The tutorial offer is declined for good; the main menu is spoken.
    DeclineTutorial,
    /// The tutorial offer is spoken again.
    RepeatPrompt,
    /// The action belongs to the tutorial lesson on screen.
    Lesson,
    /// The action belongs to the game on screen.
    Play,
}

/// The outcome of an action on a screen.
#[derive(Clone, PartialEq, Debug)]
pub struct Navigation {
    /// The screen shown next.
    pub screen: AppScreen,
    pub sound: MenuSound,
    pub effect: MenuEffect,
    /// The screen is drawn (and spoken) again.
    pub render: bool,
    /// It is drawn as a new page, spoken from its start.
    pub initial_load: bool,
}

/// What the menus need to know that is not in the screen itself.
#[derive(Clone, Copy, PartialEq, Eq, Debug, Structural)]
pub struct MenuContext {
    pub game_in_progress: bool,
    /// Entries of the leaderboard (at least one: Back).
    pub leaderboard_items: usize,
    /// Lines of the how-to-play page.
    pub how_to_play_lines: usize,
    /// Lines of the about page.
    pub about_lines: usize,
}

/// The entry above `sel` in a menu of `n` entries, wrapping to the last.
pub open spec fn wrap_up(sel: int, n: int) -> int {
    if sel > 0 {
        sel - 1
    } else {
        n - 1
    }
}

/// The entry below `sel` in a menu of `n` entries, wrapping to the first.
pub open spec fn wrap_down(sel: int, n: int) -> int {
    if sel < n - 1 {
        sel + 1
    } else {
        0
    }
}

/// The entry above `sel`, wrapping round a menu of `n` entries.
pub fn menu_up(sel: usize, n: usize) -> (r: usize)
    requires
        n > 0,
    ensures
        r == wrap_up(sel as int, n as int),
{
    if sel > 0 {
        sel - 1
    } else {
        n - 1
    }
}

/// The entry below `sel`, wrapping round a menu of `n` entries.
pub fn menu_down(sel: usize, n: usize) -> (r: usize)
    requires
        n > 0,
    ensures
        r == wrap_down(sel as int, n as int),
{
    if sel < n - 1 {
        sel + 1
    } else {
        0
    }
}

/// Number of entries of the main menu.
pub open spec fn main_menu_len(in_prog: bool) -> int {
    if in_prog {
        MAIN_MENU_LEN_IN_GAME as int
    } else {
        MAIN_MENU_LEN as int
    }
}

/// Number of entries of the update screen: installing comes first when an
/// update is available; checking and Back always.
pub open spec fn update_menu_len(status: UpdateStatus) -> int {
    match status {
        UpdateStatus::Available(_) => 3,
        _ => 2,
    }
}

/// A navigation result.
pub open spec fn nav(screen: AppScreen, sound: MenuSound, effect: MenuEffect, render: bool, initial_load: bool) -> Navigation {
    Navigation { screen, sound, effect, render, initial_load }
}

/// Nothing happens.
pub open spec fn stay(screen: AppScreen) -> Navigation {
    nav(screen, MenuSound::Silent, MenuEffect::Nothing, false, false)
}

/// The cursor moves to another entry of the same screen.
pub open spec fn moved_to(screen: AppScreen) -> Navigation {
    nav(screen, MenuSound::Move, MenuEffect::Nothing, true, false)
}

/// Another screen opens.
pub open spec fn entered(screen: AppScreen) -> Navigation {
    nav(screen, MenuSound::Select, MenuEffect::Nothing, true, false)
}

/// A page that is read from its start opens.
pub open spec fn opened_page(screen: AppScreen) -> Navigation {
    nav(screen, MenuSound::Select, MenuEffect::Nothing, true, true)
}

/// The game resumes.
pub open spec fn resumed() -> Navigation {
    nav(AppScreen::InGame, MenuSound::Select, MenuEffect::Resume, true, false)
}

/// The tutorial starts.
pub open spec fn tutorial_started(end_game: bool) -> Navigation {
    nav(AppScreen::Tutorial { stage: 1 }, MenuSound::Select, MenuEffect::StartTutorial { end_game }, true, true)
}

/// A new game starts.
pub open spec fn new_game_started() -> Navigation {
    nav(AppScreen::InGame, MenuSound::Select, MenuEffect::NewGame, true, false)
}

/// The update screen in its resting state.
pub open spec fn update_screen() -> AppScreen {
    AppScreen::Update { selection: 0, status: UpdateStatus::Idle }
}

/// Select on entry `sel` of the main menu.
pub open spec fn main_menu_choice(sel: usize, in_prog: bool) -> Navigation {
    if in_prog {
        if sel == 0 {
            resumed()
        } else if sel == 1 {
            entered(AppScreen::ConfirmDialog { action: ConfirmAction::NewGame })
        } else if sel == 2 {
            entered(AppScreen::ConfirmDialog { action: ConfirmAction::StartTutorial })
        } else if sel == 3 {
            entered(AppScreen::SaveScreen { selection: 0 })
        } else if sel == 4 {
            entered(AppScreen::LoadScreen { selection: 0 })
        } else if sel == 5 {
            entered(AppScreen::Leaderboard { selection: 0 })
        } else if sel == 6 {
            opened_page(AppScreen::HowToPlay { scroll_line: 0 })
        } else if sel == 7 {
            entered(AppScreen::Settings { selection: 0 })
        } else if sel == 8 {
            opened_page(AppScreen::About { scroll_line: 0 })
        } else if sel == 9 {
            entered(update_screen())
        } else if sel == 10 {
            entered(AppScreen::ConfirmDialog { action: ConfirmAction::QuitApp })
        } else {
            entered(AppScreen::MainMenu { selection: sel })
        }
    } else {
        if sel == 0 {
            new_game_started()
        } else if sel == 1 {
            tutorial_started(false)
        } else if sel == 2 {
            entered(AppScreen::LoadScreen { selection: 0 })
        } else if sel == 3 {
            entered(AppScreen::Leaderboard { selection: 0 })
        } else if sel == 4 {
            opened_page(AppScreen::HowToPlay { scroll_line: 0 })
        } else if sel == 5 {
            entered(AppScreen::Settings { selection: 0 })
        } else if sel == 6 {
            opened_page(AppScreen::About { scroll_line: 0 })
        } else if sel == 7 {
            entered(update_screen())
        } else if sel == 8 {
            entered(AppScreen::ConfirmDialog { action: ConfirmAction::QuitApp })
        } else {
            entered(AppScreen::MainMenu { selection: sel })
        }
    }
}

/// Select on entry `sel` of the pause menu.
pub open spec fn pause_menu_choice(sel: usize) -> Navigation {
    if sel == 0 {
        resumed()
    } else if sel == 1 {
        entered(AppScreen::SaveScreen { selection: 0 })
    } else if sel == 2 {
        entered(AppScreen::ConfirmDialog { action: ConfirmAction::AbandonGame })
    } else if sel == 3 {
        opened_page(AppScreen::HowToPlay { scroll_line: 0 })
    } else if sel == 4 {
        entered(AppScreen::Settings { selection: 0 })
    } else {
        entered(AppScreen::PauseMenu { selection: sel })
    }
}

/// The setting that Left (`forward` false) or Right changes on entry `sel`
/// of the settings screen.
pub open spec fn settings_change(sel: usize, forward: bool) -> SettingChange {
    if sel == 0 {
        SettingChange::Language(forward)
    } else if sel == 1 {
        SettingChange::Difficulty(forward)
    } else if sel == 4 {
        SettingChange::VoiceVolume(forward)
    } else if sel == 5 {
        SettingChange::SfxVolume(forward)
    } else if sel == 6 {
        SettingChange::ToggleMusic
    } else if sel == 7 {
        SettingChange::MusicVolume(forward)
    } else if sel == 8 {
        SettingChange::ToggleAutoUpdate
    } else {
        SettingChange::Unchanged
    }
}

/// A setting changes on the screen shown.
pub open spec fn adjusted(screen: AppScreen, c: SettingChange) -> Navigation {
    nav(screen, change_sound(c), MenuEffect::Adjust(c), true, false)
}

/// Where Back leads from the screens reached from the main menu (or the
/// pause menu): the entry it was opened from.
pub open spec fn back_from(screen: AppScreen, in_prog: bool) -> AppScreen {
    match screen {
        AppScreen::LoadScreen { .. } => if in_prog {
            AppScreen::PauseMenu { selection: 2 }
        } else {
            AppScreen::MainMenu { selection: 2 }
        },
        AppScreen::Leaderboard { .. } => AppScreen::MainMenu { selection: if in_prog { 5 } else { 3 } },
        AppScreen::Settings { .. } => if in_prog {
            AppScreen::PauseMenu { selection: 4 }
        } else {
            AppScreen::MainMenu { selection: 5 }
        },
        AppScreen::HowToPlay { .. } => if in_prog {
            AppScreen::PauseMenu { selection: 3 }
        } else {
            AppScreen::MainMenu { selection: 4 }
        },
        AppScreen::About { .. } => AppScreen::MainMenu { selection: if in_prog { 8 } else { 6 } },
        AppScreen::Update { .. } => AppScreen::MainMenu { selection: if in_prog { 9 } else { 7 } },
        _ => AppScreen::PauseMenu { selection: 1 },
    }
}

/// Where Back leads from a confirmation dialog.
pub open spec fn back_from_dialog(action: ConfirmAction, in_prog: bool) -> AppScreen {
    if in_prog {
        match action {
            ConfirmAction::AbandonGame => AppScreen::PauseMenu { selection: 2 },
            ConfirmAction::NewGame => AppScreen::MainMenu { selection: 1 },
            ConfirmAction::StartTutorial => AppScreen::MainMenu { selection: 2 },
            ConfirmAction::QuitApp => AppScreen::MainMenu { selection: 10 },
            ConfirmAction::UpdateApp(_) => AppScreen::PauseMenu { selection: 0 },
        }
    } else {
        match action {
            ConfirmAction::QuitApp => AppScreen::MainMenu { selection: 8 },
            _ => AppScreen::MainMenu { selection: 0 },
        }
    }
}

/// The text page `screen` scrolled to line `k`.
pub open spec fn page_at(screen: AppScreen, k: usize) -> AppScreen {
    if screen is HowToPlay {
        AppScreen::HowToPlay { scroll_line: k }
    } else {
        AppScreen::About { scroll_line: k }
    }
}

/// Action `a` on a text page of `lines` lines scrolled to line `l`: Up and
/// Down scroll (stopping at either end), Select reads the page out.
pub open spec fn page_navigation(screen: AppScreen, l: usize, lines: usize, a: InputAction, ip: bool) -> Navigation {
    match a {
        InputAction::Up => if l > 0 {
            moved_to(page_at(screen, (l - 1) as usize))
        } else {
            stay(screen)
        },
        InputAction::Down => if l < lines - 1 {
            moved_to(page_at(screen, (l + 1) as usize))
        } else {
            stay(screen)
        },
        InputAction::Select => nav(screen, MenuSound::Select, MenuEffect::ReadAll, false, false),
        InputAction::Back => entered(back_from(screen, ip)),
        _ => stay(screen),
    }
}

/// The sound that goes with a setting change: the menu click for the
/// language, difficulty, update-check, window and font settings; the other
/// settings are heard through the change itself.
pub open spec fn change_sound(c: SettingChange) -> MenuSound {
    match c {
        SettingChange::Language(_) | SettingChange::Difficulty(_) | SettingChange::ToggleAutoUpdate
        | SettingChange::WindowSize(_) | SettingChange::FontScale(_) => MenuSound::Move,
        _ => MenuSound::Silent,
    }
}

/// Action `a` on the screens that hold a list of entries or lines.
pub open spec fn list_navigation(screen: AppScreen, a: InputAction, ctx: MenuContext) -> Navigation {
    let ip = ctx.game_in_progress;
    match screen {
        AppScreen::MainMenu { selection: sel } => {
            let n = main_menu_len(ip);
            match a {
                InputAction::Up => moved_to(AppScreen::MainMenu { selection: wrap_up(sel as int, n) as usize }),
                InputAction::Down => moved_to(AppScreen::MainMenu { selection: wrap_down(sel as int, n) as usize }),
                InputAction::Select => main_menu_choice(sel, ip),
                InputAction::HelpMode => nav(
                    AppScreen::KeyDescriber { esc_count: 0 },
                    MenuSound::Select,
                    MenuEffect::HelpIntro,
                    true,
                    false,
                ),
                InputAction::Back => if ip {
                    resumed()
                } else {
                    nav(screen, MenuSound::Select, MenuEffect::Nothing, false, false)
                },
                _ => stay(screen),
            }
        },
        AppScreen::PauseMenu { selection: sel } => match a {
            InputAction::Up => moved_to(AppScreen::PauseMenu { selection: wrap_up(sel as int, PAUSE_MENU_LEN as int) as usize }),
            InputAction::Down => moved_to(AppScreen::PauseMenu { selection: wrap_down(sel as int, PAUSE_MENU_LEN as int) as usize }),
            InputAction::Select => pause_menu_choice(sel),
            InputAction::Back => resumed(),
            _ => stay(screen),
        },
        AppScreen::SaveScreen { selection: sel } => match a {
            InputAction::Up => moved_to(AppScreen::SaveScreen { selection: wrap_up(sel as int, SLOT_MENU_LEN as int) as usize }),
            InputAction::Down => moved_to(AppScreen::SaveScreen { selection: wrap_down(sel as int, SLOT_MENU_LEN as int) as usize }),
            InputAction::Select => if sel < 5 {
                nav(AppScreen::PauseMenu { selection: 1 }, MenuSound::Select, MenuEffect::SaveSlot((sel + 1) as usize), true, false)
            } else {
                entered(AppScreen::PauseMenu { selection: 1 })
            },
            InputAction::Back => entered(AppScreen::PauseMenu { selection: 1 }),
            _ => stay(screen),
        },
        AppScreen::LoadScreen { selection: sel } => match a {
            InputAction::Up => moved_to(AppScreen::LoadScreen { selection: wrap_up(sel as int, SLOT_MENU_LEN as int) as usize }),
            InputAction::Down => moved_to(AppScreen::LoadScreen { selection: wrap_down(sel as int, SLOT_MENU_LEN as int) as usize }),
            InputAction::Select => if sel < 5 {
                nav(AppScreen::InGame, MenuSound::Select, MenuEffect::LoadSlot((sel + 1) as usize), true, false)
            } else {
                entered(back_from(screen, ip))
            },
            InputAction::Back => entered(back_from(screen, ip)),
            _ => stay(screen),
        },
        AppScreen::Leaderboard { selection: sel } => {
            let n = ctx.leaderboard_items as int;
            match a {
                InputAction::Up => moved_to(AppScreen::Leaderboard { selection: wrap_up(sel as int, n) as usize }),
                InputAction::Down => moved_to(AppScreen::Leaderboard { selection: wrap_down(sel as int, n) as usize }),
                InputAction::Select => if sel == n - 1 {
                    entered(back_from(screen, ip))
                } else {
                    nav(screen, MenuSound::Select, MenuEffect::SpeakItem, true, false)
                },
                InputAction::Back => entered(back_from(screen, ip)),
                _ => stay(screen),
            }
        },
        AppScreen::HowToPlay { scroll_line: l } => page_navigation(screen, l, ctx.how_to_play_lines, a, ip),
        AppScreen::About { scroll_line: l } => page_navigation(screen, l, ctx.about_lines, a, ip),
        _ => stay(screen),
    }
}

/// Action `a` on the settings screens.
pub open spec fn settings_navigation(screen: AppScreen, a: InputAction, ctx: MenuContext) -> Navigation {
    match screen {
        AppScreen::Settings { selection: sel } => match a {
            InputAction::Up => moved_to(AppScreen::Settings { selection: wrap_up(sel as int, SETTINGS_LEN as int) as usize }),
            InputAction::Down => moved_to(AppScreen::Settings { selection: wrap_down(sel as int, SETTINGS_LEN as int) as usize }),
            InputAction::Left => adjusted(screen, settings_change(sel, false)),
            InputAction::Right => adjusted(screen, settings_change(sel, true)),
            InputAction::Select => if sel == 2 {
                entered(AppScreen::VisualSettings { selection: 0 })
            } else if sel == 3 {
                entered(AppScreen::SpeechVerbosity { selection: 0 })
            } else if sel == 9 {
                entered(back_from(screen, ctx.game_in_progress))
            } else {
                stay(screen)
            },
            InputAction::Back => entered(back_from(screen, ctx.game_in_progress)),
            _ => stay(screen),
        },
        AppScreen::VisualSettings { selection: sel } => match a {
            InputAction::Up => moved_to(AppScreen::VisualSettings { selection: wrap_up(sel as int, VISUAL_SETTINGS_LEN as int) as usize }),
            InputAction::Down => moved_to(AppScreen::VisualSettings { selection: wrap_down(sel as int, VISUAL_SETTINGS_LEN as int) as usize }),
            InputAction::Left => adjusted(screen, if sel == 0 {
                SettingChange::WindowSize(false)
            } else if sel == 1 {
                SettingChange::FontScale(false)
            } else {
                SettingChange::Unchanged
            }),
            InputAction::Right | InputAction::Select => if sel == 0 {
                adjusted(screen, SettingChange::WindowSize(true))
            } else if sel == 1 {
                adjusted(screen, SettingChange::FontScale(true))
            } else if sel == 2 && a == InputAction::Select {
                nav(AppScreen::Settings { selection: 2 }, MenuSound::Select, MenuEffect::Adjust(SettingChange::Unchanged), true, false)
            } else {
                adjusted(screen, SettingChange::Unchanged)
            },
            InputAction::Back => entered(AppScreen::Settings { selection: 2 }),
            _ => stay(screen),
        },
        AppScreen::SpeechVerbosity { selection: sel } => match a {
            InputAction::Up => moved_to(AppScreen::SpeechVerbosity { selection: wrap_up(sel as int, SPEECH_SETTINGS_LEN as int) as usize }),
            InputAction::Down => moved_to(AppScreen::SpeechVerbosity { selection: wrap_down(sel as int, SPEECH_SETTINGS_LEN as int) as usize }),
            InputAction::Left | InputAction::Right | InputAction::Select => if sel == 0 {
                adjusted(screen, SettingChange::TogglePieceCallouts)
            } else if sel == 1 {
                adjusted(screen, SettingChange::ToggleScoringDetails)
            } else if sel == 2 {
                adjusted(screen, SettingChange::ToggleZoneAlerts)
            } else if sel == 3 && a == InputAction::Select {
                nav(AppScreen::Settings { selection: 3 }, MenuSound::Select, MenuEffect::Adjust(SettingChange::Unchanged), true, false)
            } else {
                adjusted(screen, SettingChange::Unchanged)
            },
            InputAction::Back => entered(AppScreen::Settings { selection: 3 }),
            _ => stay(screen),
        },
        _ => stay(screen),
    }
}

/// Action `a` on the update screen and in the confirmation dialogs.
pub open spec fn dialog_navigation(screen: AppScreen, a: InputAction, ctx: MenuContext) -> Navigation {
    let ip = ctx.game_in_progress;
    match screen {
        AppScreen::Update { selection: sel, status } => {
            let n = update_menu_len(status);
            let available = status is Available;
            match a {
                InputAction::Up => moved_to(AppScreen::Update { selection: wrap_up(sel as int, n) as usize, status }),
                InputAction::Down => moved_to(AppScreen::Update { selection: wrap_down(sel as int, n) as usize, status }),
                InputAction::Select => if available && sel == 0 {
                    entered(AppScreen::ConfirmDialog { action: ConfirmAction::UpdateApp(status->Available_0) })
                } else if (available && sel == 1) || (!available && sel == 0) {
                    nav(
                        AppScreen::Update { selection: 0, status: UpdateStatus::Checking },
                        MenuSound::Select,
                        MenuEffect::CheckUpdates,
                        true,
                        false,
                    )
                } else if (available && sel == 2) || (!available && sel == 1) {
                    entered(back_from(screen, ip))
                } else {
                    nav(screen, MenuSound::Select, MenuEffect::Nothing, false, false)
                },
                InputAction::Back => entered(back_from(screen, ip)),
                _ => stay(screen),
            }
        },
        AppScreen::ConfirmDialog { action } => match a {
            InputAction::Select => match action {
                ConfirmAction::NewGame => new_game_started(),
                ConfirmAction::StartTutorial => tutorial_started(true),
                ConfirmAction::AbandonGame => nav(
                    AppScreen::MainMenu { selection: 0 },
                    MenuSound::Select,
                    MenuEffect::AbandonGame,
                    true,
                    false,
                ),
                ConfirmAction::QuitApp => nav(screen, MenuSound::Select, MenuEffect::Quit, false, false),
                ConfirmAction::UpdateApp(info) => nav(
                    AppScreen::Update { selection: 0, status: UpdateStatus::Downloading },
                    MenuSound::Select,
                    MenuEffect::DownloadUpdate(info.download_url),
                    true,
                    false,
                ),
            },
            InputAction::Back => entered(back_from_dialog(action, ip)),
            _ => stay(screen),
        },
        _ => stay(screen),
    }
}

/// Action `a` on `screen`: the music keys first (outside the key describer;
/// track changes only where the game's music plays), then the key describer,
/// then Start (pause or resume), then the screen's own rules.
pub open spec fn navigation(screen: AppScreen, a: InputAction, ctx: MenuContext) -> Navigation {
    let ip = ctx.game_in_progress;
    let describing = screen is KeyDescriber;
    if !describing && a == InputAction::NextTrack && !menu_music(screen, ip) {
        nav(screen, MenuSound::Silent, MenuEffect::NextTrack, false, false)
    } else if !describing && a == InputAction::PrevTrack && !menu_music(screen, ip) {
        nav(screen, MenuSound::Silent, MenuEffect::PrevTrack, false, false)
    } else if !describing && a == InputAction::Mute {
        nav(screen, MenuSound::Silent, MenuEffect::ToggleMute, screen is Settings, false)
    } else if describing {
        if a == InputAction::Back {
            if screen->esc_count >= 1 {
                nav(
                    if ip {
                        AppScreen::PauseMenu { selection: 0 }
                    } else {
                        AppScreen::MainMenu { selection: 0 }
                    },
                    MenuSound::Select,
                    MenuEffect::ExitHelp,
                    true,
                    false,
                )
            } else {
                nav(AppScreen::KeyDescriber { esc_count: 1 }, MenuSound::Move, MenuEffect::EscAgain, false, false)
            }
        } else {
            nav(AppScreen::KeyDescriber { esc_count: 0 }, MenuSound::Move, MenuEffect::Describe(a), false, false)
        }
    } else if a == InputAction::Start {
        if screen is InGame {
            nav(AppScreen::PauseMenu { selection: 0 }, MenuSound::Select, MenuEffect::Pause, true, false)
        } else if screen is PauseMenu {
            resumed()
        } else {
            stay(screen)
        }
    } else {
        match screen {
            AppScreen::InGame => nav(screen, MenuSound::Silent, MenuEffect::Play, true, false),
            AppScreen::Tutorial { .. } => nav(screen, MenuSound::Silent, MenuEffect::Lesson, false, false),
            AppScreen::TutorialPrompt => match a {
                InputAction::Select => tutorial_started(false),
                InputAction::Back => nav(
                    AppScreen::MainMenu { selection: 0 },
                    MenuSound::Select,
                    MenuEffect::DeclineTutorial,
                    true,
                    false,
                ),
                InputAction::Up | InputAction::Down | InputAction::Left | InputAction::Right => nav(
                    screen,
                    MenuSound::Move,
                    MenuEffect::RepeatPrompt,
                    false,
                    false,
                ),
                _ => stay(screen),
            },
            AppScreen::Settings { .. } | AppScreen::VisualSettings { .. } | AppScreen::SpeechVerbosity {
                ..
            } => settings_navigation(screen, a, ctx),
            AppScreen::Update { .. } | AppScreen::ConfirmDialog { .. } => dialog_navigation(screen, a, ctx),
            _ => list_navigation(screen, a, ctx),
        }
    }
}

/// The leaderboard and the two text pages have at least one entry or line.
pub open spec fn context_ok(ctx: MenuContext) -> bool {
    ctx.leaderboard_items >= 1 && ctx.how_to_play_lines >= 1 && ctx.about_lines >= 1
}

/// A navigation result (see `nav`).
fn mk(screen: AppScreen, sound: MenuSound, effect: MenuEffect, render: bool, initial_load: bool) -> (r: Navigation)
    ensures
        r == nav(screen, sound, effect, render, initial_load),
{
    Navigation { screen, sound, effect, render, initial_load }
}

fn mk_stay(screen: AppScreen) -> (r: Navigation)
    ensures
        r == stay(screen),
{
    mk(screen, MenuSound::Silent, MenuEffect::Nothing, false, false)
}

fn mk_moved(screen: AppScreen) -> (r: Navigation)
    ensures
        r == moved_to(screen),
{
    mk(screen, MenuSound::Move, MenuEffect::Nothing, true, false)
}

fn mk_entered(screen: AppScreen) -> (r: Navigation)
    ensures
        r == entered(screen),
{
    mk(screen, MenuSound::Select, MenuEffect::Nothing, true, false)
}

fn mk_page(screen: AppScreen) -> (r: Navigation)
    ensures
        r == opened_page(screen),
{
    mk(screen, MenuSound::Select, MenuEffect::Nothing, true, true)
}

fn mk_resumed() -> (r: Navigation)
    ensures
        r == resumed(),
{
    mk(AppScreen::InGame, MenuSound::Select, MenuEffect::Resume, true, false)
}

fn mk_tutorial(end_game: bool) -> (r: Navigation)
    ensures
        r == tutorial_started(end_game),
{
    mk(AppScreen::Tutorial { stage: 1 }, MenuSound::Select, MenuEffect::StartTutorial { end_game }, true, true)
}

fn mk_adjusted(screen: AppScreen, c: SettingChange) -> (r: Navigation)
    ensures
        r == adjusted(screen, c),
{
    let sound = match c {
        SettingChange::Language(_) | SettingChange::Difficulty(_) | SettingChange::ToggleAutoUpdate
        | SettingChange::WindowSize(_) | SettingChange::FontScale(_) => MenuSound::Move,
        _ => MenuSound::Silent,
    };
    mk(screen, sound, MenuEffect::Adjust(c), true, false)
}

/// An exact copy of a screen.
pub fn copy_screen(screen: &AppScreen) -> (r: AppScreen)
    ensures
        r == *screen,
{
    match screen {
        AppScreen::TutorialPrompt => AppScreen::TutorialPrompt,
        AppScreen::Tutorial { stage } => AppScreen::Tutorial { stage: *stage },
        AppScreen::MainMenu { selection } => AppScreen::MainMenu { selection: *selection },
        AppScreen::PauseMenu { selection } => AppScreen::PauseMenu { selection: *selection },
        AppScreen::SaveScreen { selection } => AppScreen::SaveScreen { selection: *selection },
        AppScreen::LoadScreen { selection } => AppScreen::LoadScreen { selection: *selection },
        AppScreen::Leaderboard { selection } => AppScreen::Leaderboard { selection: *selection },
        AppScreen::Settings { selection } => AppScreen::Settings { selection: *selection },
        AppScreen::VisualSettings { selection } => AppScreen::VisualSettings { selection: *selection },
        AppScreen::SpeechVerbosity { selection } => AppScreen::SpeechVerbosity { selection: *selection },
        AppScreen::HowToPlay { scroll_line } => AppScreen::HowToPlay { scroll_line: *scroll_line },
        AppScreen::About { scroll_line } => AppScreen::About { scroll_line: *scroll_line },
        AppScreen::Update { selection, status } => AppScreen::Update {
            selection: *selection,
            status: copy_update_status(status),
        },
        AppScreen::ConfirmDialog { action } => AppScreen::ConfirmDialog {
            action: match action {
                ConfirmAction::NewGame => ConfirmAction::NewGame,
                ConfirmAction::StartTutorial => ConfirmAction::StartTutorial,
                ConfirmAction::AbandonGame => ConfirmAction::AbandonGame,
                ConfirmAction::QuitApp => ConfirmAction::QuitApp,
                ConfirmAction::UpdateApp(info) => ConfirmAction::UpdateApp(copy_update_info(info)),
            },
        },
        AppScreen::InGame => AppScreen::InGame,
        AppScreen::KeyDescriber { esc_count } => AppScreen::KeyDescriber { esc_count: *esc_count },
    }
}

/// Where Back leads (see `back_from`).
fn back_target(screen: &AppScreen, in_prog: bool) -> (r: AppScreen)
    ensures
        r == back_from(*screen, in_prog),
{
    match screen {
        AppScreen::LoadScreen { .. } => if in_prog {
            AppScreen::PauseMenu { selection: 2 }
        } else {
            AppScreen::MainMenu { selection: 2 }
        },
        AppScreen::Leaderboard { .. } => AppScreen::MainMenu { selection: if in_prog { 5 } else { 3 } },
        AppScreen::Settings { .. } => if in_prog {
            AppScreen::PauseMenu { selection: 4 }
        } else {
            AppScreen::MainMenu { selection: 5 }
        },
        AppScreen::HowToPlay { .. } => if in_prog {
            AppScreen::PauseMenu { selection: 3 }
        } else {
            AppScreen::MainMenu { selection: 4 }
        },
        AppScreen::About { .. } => AppScreen::MainMenu { selection: if in_prog { 8 } else { 6 } },
        AppScreen::Update { .. } => AppScreen::MainMenu { selection: if in_prog { 9 } else { 7 } },
        _ => AppScreen::PauseMenu { selection: 1 },
    }
}

/// Select on the main menu (see `main_menu_choice`).
fn main_menu_select(sel: usize, in_prog: bool) -> (r: Navigation)
    ensures
        r == main_menu_choice(sel, in_prog),
{
    if in_prog {
        if sel == 0 {
            mk_resumed()
        } else if sel == 1 {
            mk_entered(AppScreen::ConfirmDialog { action: ConfirmAction::NewGame })
        } else if sel == 2 {
            mk_entered(AppScreen::ConfirmDialog { action: ConfirmAction::StartTutorial })
        } else if sel == 3 {
            mk_entered(AppScreen::SaveScreen { selection: 0 })
        } else if sel == 4 {
            mk_entered(AppScreen::LoadScreen { selection: 0 })
        } else if sel == 5 {
            mk_entered(AppScreen::Leaderboard { selection: 0 })
        } else if sel == 6 {
            mk_page(AppScreen::HowToPlay { scroll_line: 0 })
        } else if sel == 7 {
            mk_entered(AppScreen::Settings { selection: 0 })
        } else if sel == 8 {
            mk_page(AppScreen::About { scroll_line: 0 })
        } else if sel == 9 {
            mk_entered(AppScreen::Update { selection: 0, status: UpdateStatus::Idle })
        } else if sel == 10 {
            mk_entered(AppScreen::ConfirmDialog { action: ConfirmAction::QuitApp })
        } else {
            mk_entered(AppScreen::MainMenu { selection: sel })
        }
    } else {
        if sel == 0 {
            mk(AppScreen::InGame, MenuSound::Select, MenuEffect::NewGame, true, false)
        } else if sel == 1 {
            mk_tutorial(false)
        } else if sel == 2 {
            mk_entered(AppScreen::LoadScreen { selection: 0 })
        } else if sel == 3 {
            mk_entered(AppScreen::Leaderboard { selection: 0 })
        } else if sel == 4 {
            mk_page(AppScreen::HowToPlay { scroll_line: 0 })
        } else if sel == 5 {
            mk_entered(AppScreen::Settings { selection: 0 })
        } else if sel == 6 {
            mk_page(AppScreen::About { scroll_line: 0 })
        } else if sel == 7 {
            mk_entered(AppScreen::Update { selection: 0, status: UpdateStatus::Idle })
        } else if sel == 8 {
            mk_entered(AppScreen::ConfirmDialog { action: ConfirmAction::QuitApp })
        } else {
            mk_entered(AppScreen::MainMenu { selection: sel })
        }
    }
}

/// Select on the pause menu (see `pause_menu_choice`).
fn pause_menu_select(sel: usize) -> (r: Navigation)
    ensures
        r == pause_menu_choice(sel),
{
    if sel == 0 {
        mk_resumed()
    } else if sel == 1 {
        mk_entered(AppScreen::SaveScreen { selection: 0 })
    } else if sel == 2 {
        mk_entered(AppScreen::ConfirmDialog { action: ConfirmAction::AbandonGame })
    } else if sel == 3 {
        mk_page(AppScreen::HowToPlay { scroll_line: 0 })
    } else if sel == 4 {
        mk_entered(AppScreen::Settings { selection: 0 })
    } else {
        mk_entered(AppScreen::PauseMenu { selection: sel })
    }
}

/// Action `a` on a text page (see `page_navigation`).
fn page_step(screen: &AppScreen, l: usize, lines: usize, a: InputAction, ip: bool) -> (r: Navigation)
    requires
        lines >= 1,
        *screen is HowToPlay || *screen is About,
    ensures
        r == page_navigation(*screen, l, lines, a, ip),
{
    let how_to = match screen {
        AppScreen::HowToPlay { .. } => true,
        _ => false,
    };
    match a {
        InputAction::Up => {
            if l > 0 {
                let k = l - 1;
                mk_moved(if how_to { AppScreen::HowToPlay { scroll_line: k } } else { AppScreen::About { scroll_line: k } })
            } else {
                mk_stay(copy_screen(screen))
            }
        },
        InputAction::Down => {
            if l < lines - 1 {
                let k = l + 1;
                mk_moved(if how_to { AppScreen::HowToPlay { scroll_line: k } } else { AppScreen::About { scroll_line: k } })
            } else {
                mk_stay(copy_screen(screen))
            }
        },
        InputAction::Select => mk(copy_screen(screen), MenuSound::Select, MenuEffect::ReadAll, false, false),
        InputAction::Back => mk_entered(back_target(screen, ip)),
        _ => mk_stay(copy_screen(screen)),
    }
}

/// Action `a` on a list screen (see `list_navigation`).
fn list_step(screen: &AppScreen, a: InputAction, ctx: MenuContext) -> (r: Navigation)
    requires
        context_ok(ctx),
    ensures
        r == list_navigation(*screen, a, ctx),
{
    let ip = ctx.game_in_progress;
    match screen {
        AppScreen::MainMenu { selection } => {
            let sel = *selection;
            let n = if ip { MAIN_MENU_LEN_IN_GAME } else { MAIN_MENU_LEN };
            match a {
                InputAction::Up => mk_moved(AppScreen::MainMenu { selection: menu_up(sel, n) }),
                InputAction::Down => mk_moved(AppScreen::MainMenu { selection: menu_down(sel, n) }),
                InputAction::Select => main_menu_select(sel, ip),
                InputAction::HelpMode => mk(
                    AppScreen::KeyDescriber { esc_count: 0 },
                    MenuSound::Select,
                    MenuEffect::HelpIntro,
                    true,
                    false,
                ),
                InputAction::Back => if ip {
                    mk_resumed()
                } else {
                    mk(copy_screen(screen), MenuSound::Select, MenuEffect::Nothing, false, false)
                },
                _ => mk_stay(copy_screen(screen)),
            }
        },
        AppScreen::PauseMenu { selection } => {
            let sel = *selection;
            match a {
                InputAction::Up => mk_moved(AppScreen::PauseMenu { selection: menu_up(sel, PAUSE_MENU_LEN) }),
                InputAction::Down => mk_moved(AppScreen::PauseMenu { selection: menu_down(sel, PAUSE_MENU_LEN) }),
                InputAction::Select => pause_menu_select(sel),
                InputAction::Back => mk_resumed(),
                _ => mk_stay(copy_screen(screen)),
            }
        },
        AppScreen::SaveScreen { selection } => {
            let sel = *selection;
            match a {
                InputAction::Up => mk_moved(AppScreen::SaveScreen { selection: menu_up(sel, SLOT_MENU_LEN) }),
                InputAction::Down => mk_moved(AppScreen::SaveScreen { selection: menu_down(sel, SLOT_MENU_LEN) }),
                InputAction::Select => if sel < 5 {
                    mk(AppScreen::PauseMenu { selection: 1 }, MenuSound::Select, MenuEffect::SaveSlot(sel + 1), true, false)
                } else {
                    mk_entered(AppScreen::PauseMenu { selection: 1 })
                },
                InputAction::Back => mk_entered(AppScreen::PauseMenu { selection: 1 }),
                _ => mk_stay(copy_screen(screen)),
            }
        },
        AppScreen::LoadScreen { selection } => {
            let sel = *selection;
            match a {
                InputAction::Up => mk_moved(AppScreen::LoadScreen { selection: menu_up(sel, SLOT_MENU_LEN) }),
                InputAction::Down => mk_moved(AppScreen::LoadScreen { selection: menu_down(sel, SLOT_MENU_LEN) }),
                InputAction::Select => if sel < 5 {
                    mk(AppScreen::InGame, MenuSound::Select, MenuEffect::LoadSlot(sel + 1), true, false)
                } else {
                    mk_entered(back_target(screen, ip))
                },
                InputAction::Back => mk_entered(back_target(screen, ip)),
                _ => mk_stay(copy_screen(screen)),
            }
        },
        AppScreen::Leaderboard { selection } => {
            let sel = *selection;
            let n = ctx.leaderboard_items;
            match a {
                InputAction::Up => mk_moved(AppScreen::Leaderboard { selection: menu_up(sel, n) }),
                InputAction::Down => mk_moved(AppScreen::Leaderboard { selection: menu_down(sel, n) }),
                InputAction::Select => if sel == n - 1 {
                    mk_entered(back_target(screen, ip))
                } else {
                    mk(copy_screen(screen), MenuSound::Select, MenuEffect::SpeakItem, true, false)
                },
                InputAction::Back => mk_entered(back_target(screen, ip)),
                _ => mk_stay(copy_screen(screen)),
            }
        },
        AppScreen::HowToPlay { scroll_line } => page_step(screen, *scroll_line, ctx.how_to_play_lines, a, ip),
        AppScreen::About { scroll_line } => page_step(screen, *scroll_line, ctx.about_lines, a, ip),
        _ => mk_stay(copy_screen(screen)),
    }
}

/// Action `a` on a settings screen (see `settings_navigation`).
fn settings_step(screen: &AppScreen, a: InputAction, ctx: MenuContext) -> (r: Navigation)
    ensures
        r == settings_navigation(*screen, a, ctx),
{
    match screen {
        AppScreen::Settings { selection } => {
            let sel = *selection;
            match a {
                InputAction::Up => mk_moved(AppScreen::Settings { selection: menu_up(sel, SETTINGS_LEN) }),
                InputAction::Down => mk_moved(AppScreen::Settings { selection: menu_down(sel, SETTINGS_LEN) }),
                InputAction::Left | InputAction::Right => {
                    let forward = a == InputAction::Right;
                    let c = if sel == 0 {
                        SettingChange::Language(forward)
                    } else if sel == 1 {
                        SettingChange::Difficulty(forward)
                    } else if sel == 4 {
                        SettingChange::VoiceVolume(forward)
                    } else if sel == 5 {
                        SettingChange::SfxVolume(forward)
                    } else if sel == 6 {
                        SettingChange::ToggleMusic
                    } else if sel == 7 {
                        SettingChange::MusicVolume(forward)
                    } else if sel == 8 {
                        SettingChange::ToggleAutoUpdate
                    } else {
                        SettingChange::Unchanged
                    };
                    mk_adjusted(copy_screen(screen), c)
                },
                InputAction::Select => if sel == 2 {
                    mk_entered(AppScreen::VisualSettings { selection: 0 })
                } else if sel == 3 {
                    mk_entered(AppScreen::SpeechVerbosity { selection: 0 })
                } else if sel == 9 {
                    mk_entered(back_target(screen, ctx.game_in_progress))
                } else {
                    mk_stay(copy_screen(screen))
                },
                InputAction::Back => mk_entered(back_target(screen, ctx.game_in_progress)),
                _ => mk_stay(copy_screen(screen)),
            }
        },
        AppScreen::VisualSettings { selection } => {
            let sel = *selection;
            match a {
                InputAction::Up => mk_moved(AppScreen::VisualSettings { selection: menu_up(sel, VISUAL_SETTINGS_LEN) }),
                InputAction::Down => mk_moved(AppScreen::VisualSettings { selection: menu_down(sel, VISUAL_SETTINGS_LEN) }),
                InputAction::Left => {
                    let c = if sel == 0 {
                        SettingChange::WindowSize(false)
                    } else if sel == 1 {
                        SettingChange::FontScale(false)
                    } else {
                        SettingChange::Unchanged
                    };
                    mk_adjusted(copy_screen(screen), c)
                },
                InputAction::Right | InputAction::Select => if sel == 0 {
                    mk_adjusted(copy_screen(screen), SettingChange::WindowSize(true))
                } else if sel == 1 {
                    mk_adjusted(copy_screen(screen), SettingChange::FontScale(true))
                } else if sel == 2 && a == InputAction::Select {
                    mk(AppScreen::Settings { selection: 2 }, MenuSound::Select, MenuEffect::Adjust(SettingChange::Unchanged), true, false)
                } else {
                    mk_adjusted(copy_screen(screen), SettingChange::Unchanged)
                },
                InputAction::Back => mk_entered(AppScreen::Settings { selection: 2 }),
                _ => mk_stay(copy_screen(screen)),
            }
        },
        AppScreen::SpeechVerbosity { selection } => {
            let sel = *selection;
            match a {
                InputAction::Up => mk_moved(AppScreen::SpeechVerbosity { selection: menu_up(sel, SPEECH_SETTINGS_LEN) }),
                InputAction::Down => mk_moved(AppScreen::SpeechVerbosity { selection: menu_down(sel, SPEECH_SETTINGS_LEN) }),
                InputAction::Left | InputAction::Right | InputAction::Select => if sel == 0 {
                    mk_adjusted(copy_screen(screen), SettingChange::TogglePieceCallouts)
                } else if sel == 1 {
                    mk_adjusted(copy_screen(screen), SettingChange::ToggleScoringDetails)
                } else if sel == 2 {
                    mk_adjusted(copy_screen(screen), SettingChange::ToggleZoneAlerts)
                } else if sel == 3 && a == InputAction::Select {
                    mk(AppScreen::Settings { selection: 3 }, MenuSound::Select, MenuEffect::Adjust(SettingChange::Unchanged), true, false)
                } else {
                    mk_adjusted(copy_screen(screen), SettingChange::Unchanged)
                },
                InputAction::Back => mk_entered(AppScreen::Settings { selection: 3 }),
                _ => mk_stay(copy_screen(screen)),
            }
        },
        _ => mk_stay(copy_screen(screen)),
    }
}

/// Action `a` on the update screen or a dialog (see `dialog_navigation`).
fn dialog_step(screen: &AppScreen, a: InputAction, ctx: MenuContext) -> (r: Navigation)
    ensures
        r == dialog_navigation(*screen, a, ctx),
{
    let ip = ctx.game_in_progress;
    match screen {
        AppScreen::Update { selection, status } => {
            let sel = *selection;
            let available = match status {
                UpdateStatus::Available(_) => true,
                _ => false,
            };
            let n: usize = if available { 3 } else { 2 };
            match a {
                InputAction::Up => mk_moved(AppScreen::Update { selection: menu_up(sel, n), status: copy_update_status(status) }),
                InputAction::Down => mk_moved(AppScreen::Update { selection: menu_down(sel, n), status: copy_update_status(status) }),
                InputAction::Select => {
                    if available && sel == 0 {
                        match status {
                            UpdateStatus::Available(info) => mk_entered(
                                AppScreen::ConfirmDialog { action: ConfirmAction::UpdateApp(copy_update_info(info)) },
                            ),
                            _ => mk_stay(copy_screen(screen)),
                        }
                    } else if (available && sel == 1) || (!available && sel == 0) {
                        mk(
                            AppScreen::Update { selection: 0, status: UpdateStatus::Checking },
                            MenuSound::Select,
                            MenuEffect::CheckUpdates,
                            true,
                            false,
                        )
                    } else if (available && sel == 2) || (!available && sel == 1) {
                        mk_entered(back_target(screen, ip))
                    } else {
                        mk(copy_screen(screen), MenuSound::Select, MenuEffect::Nothing, false, false)
                    }
                },
                InputAction::Back => mk_entered(back_target(screen, ip)),
                _ => mk_stay(copy_screen(screen)),
            }
        },
        AppScreen::ConfirmDialog { action } => match a {
            InputAction::Select => match action {
                ConfirmAction::NewGame => mk(AppScreen::InGame, MenuSound::Select, MenuEffect::NewGame, true, false),
                ConfirmAction::StartTutorial => mk_tutorial(true),
                ConfirmAction::AbandonGame => mk(
                    AppScreen::MainMenu { selection: 0 },
                    MenuSound::Select,
                    MenuEffect::AbandonGame,
                    true,
                    false,
                ),
                ConfirmAction::QuitApp => mk(copy_screen(screen), MenuSound::Select, MenuEffect::Quit, false, false),
                ConfirmAction::UpdateApp(info) => mk(
                    AppScreen::Update { selection: 0, status: UpdateStatus::Downloading },
                    MenuSound::Select,
                    MenuEffect::DownloadUpdate(info.download_url.clone()),
                    true,
                    false,
                ),
            },
            InputAction::Back => {
                let target = if ip {
                    match action {
                        ConfirmAction::AbandonGame => AppScreen::PauseMenu { selection: 2 },
                        ConfirmAction::NewGame => AppScreen::MainMenu { selection: 1 },
                        ConfirmAction::StartTutorial => AppScreen::MainMenu { selection: 2 },
                        ConfirmAction::QuitApp => AppScreen::MainMenu { selection: 10 },
                        ConfirmAction::UpdateApp(_) => AppScreen::PauseMenu { selection: 0 },
                    }
                } else {
                    match action {
                        ConfirmAction::QuitApp => AppScreen::MainMenu { selection: 8 },
                        _ => AppScreen::MainMenu { selection: 0 },
                    }
                };
                mk_entered(target)
            },
            _ => mk_stay(copy_screen(screen)),
        },
        _ => mk_stay(copy_screen(screen)),
    }
}

/// What action `a` does on `screen` (see `navigation`).
pub fn navigate(screen: &AppScreen, a: InputAction, ctx: MenuContext) -> (r: Navigation)
    requires
        context_ok(ctx),
    ensures
        r == navigation(*screen, a, ctx),
{
    let ip = ctx.game_in_progress;
    let describing = match screen {
        AppScreen::KeyDescriber { .. } => true,
        _ => false,
    };
    if !describing && a == InputAction::NextTrack && !should_use_menu_music(screen, ip) {
        return mk(copy_screen(screen), MenuSound::Silent, MenuEffect::NextTrack, false, false);
    }
    if !describing && a == InputAction::PrevTrack && !should_use_menu_music(screen, ip) {
        return mk(copy_screen(screen), MenuSound::Silent, MenuEffect::PrevTrack, false, false);
    }
    if !describing && a == InputAction::Mute {
        let in_settings = match screen {
            AppScreen::Settings { .. } => true,
            _ => false,
        };
        return mk(copy_screen(screen), MenuSound::Silent, MenuEffect::ToggleMute, in_settings, false);
    }
    match screen {
        AppScreen::KeyDescriber { esc_count } => {
            if a == InputAction::Back {
                if *esc_count >= 1 {
                    mk(
                        if ip {
                            AppScreen::PauseMenu { selection: 0 }
                        } else {
                            AppScreen::MainMenu { selection: 0 }
                        },
                        MenuSound::Select,
                        MenuEffect::ExitHelp,
                        true,
                        false,
                    )
                } else {
                    mk(AppScreen::KeyDescriber { esc_count: 1 }, MenuSound::Move, MenuEffect::EscAgain, false, false)
                }
            } else {
                mk(AppScreen::KeyDescriber { esc_count: 0 }, MenuSound::Move, MenuEffect::Describe(a), false, false)
            }
        },
        _ => {
            if a == InputAction::Start {
                match screen {
                    AppScreen::InGame => mk(
                        AppScreen::PauseMenu { selection: 0 },
                        MenuSound::Select,
                        MenuEffect::Pause,
                        true,
                        false,
                    ),
                    AppScreen::PauseMenu { .. } => mk_resumed(),
                    _ => mk_stay(copy_screen(screen)),
                }
            } else {
                match screen {
                    AppScreen::InGame => mk(AppScreen::InGame, MenuSound::Silent, MenuEffect::Play, true, false),
                    AppScreen::Tutorial { stage } => mk(
                        AppScreen::Tutorial { stage: *stage },
                        MenuSound::Silent,
                        MenuEffect::Lesson,
                        false,
                        false,
                    ),
                    AppScreen::TutorialPrompt => match a {
                        InputAction::Select => mk_tutorial(false),
                        InputAction::Back => mk(
                            AppScreen::MainMenu { selection: 0 },
                            MenuSound::Select,
                            MenuEffect::DeclineTutorial,
                            true,
                            false,
                        ),
                        InputAction::Up | InputAction::Down | InputAction::Left | InputAction::Right => mk(
                            AppScreen::TutorialPrompt,
                            MenuSound::Move,
                            MenuEffect::RepeatPrompt,
                            false,
                            false,
                        ),
                        _ => mk_stay(AppScreen::TutorialPrompt),
                    },
                    AppScreen::Settings { .. } | AppScreen::VisualSettings { .. } | AppScreen::SpeechVerbosity {
                        ..
                    } => settings_step(screen, a, ctx),
                    AppScreen::Update { .. } | AppScreen::ConfirmDialog { .. } => dialog_step(screen, a, ctx),
                    _ => list_step(screen, a, ctx),
                }
            }
        },
    }
}

/// The entry a menu of `n` entries shows as chosen for cursor `sel`: the
/// cursor itself, or the last entry when it points past the end.
pub open spec fn shown_entry(sel: int, n: int) -> int {
    if n == 0 {
        0
    } else if sel < n - 1 {
        sel
    } else {
        n - 1
    }
}

/// The entry shown as chosen (see `shown_entry`).
pub fn clamp_selection(sel: usize, n: usize) -> (r: usize)
    ensures
        r == shown_entry(sel as int, n as int),
{
    if n == 0 {
        0
    } else if sel < n - 1 {
        sel
    } else {
        n - 1
    }
}

/// Marker of the chosen entry.
pub open spec fn chosen_marker() -> Seq<char> {
    seq!['-', '>', ' ', ' ', ' ']
}

/// Indent of the other entries.
pub open spec fn plain_marker() -> Seq<char> {
    seq![' ', ' ', ' ']
}

/// One line of a menu.
pub open spec fn menu_line(entry: Seq<char>, chosen: bool) -> Seq<char> {
    (if chosen { chosen_marker() } else { plain_marker() }) + entry + seq!['\n']
}

/// The lines of a menu of `entries` with entry `sel` marked as chosen.
pub open spec fn menu_lines(entries: Seq<Seq<char>>, sel: int) -> Seq<char>
    decreases entries.len(),
{
    if entries.len() == 0 {
        Seq::empty()
    } else {
        menu_lines(entries.drop_last(), sel) + menu_line(entries.last(), entries.len() - 1 == sel)
    }
}

/// The text of each entry.
pub open spec fn entry_texts(entries: Seq<String>) -> Seq<Seq<char>> {
    entries.map_values(|e: String| e@)
}

/// The text of a menu: `header`, then one line per entry, the entry shown as
/// chosen (see `shown_entry`) marked with an arrow.
pub fn menu_text(header: &str, entries: &Vec<String>, selection: usize) -> (r: String)
    ensures
        r@ == header@ + menu_lines(entry_texts(entries@), shown_entry(selection as int, entries.len() as int)),
{
    let sel = clamp_selection(selection, entries.len());
    let mut out = String::new();
    push_str(&mut out, header);
    let mut i: usize = 0;
    while i < entries.len()
        invariant
            i <= entries.len(),
            sel == shown_entry(selection as int, entries.len() as int),
            out@ == header@ + menu_lines(entry_texts(entries@).take(i as int), sel as int),
        decreases entries.len() - i,
    {
        proof {
            let t = entry_texts(entries@);
            assert(t.take(i + 1).drop_last() == t.take(i as int));
            assert(t.take(i + 1).last() == entries@[i as int]@);
        }
        if i == sel {
            push_str(&mut out, "->   ");
        } else {
            push_str(&mut out, "   ");
        }
        push_str(&mut out, entries[i].as_str());
        push_str(&mut out, "\n");
        proof {
            reveal_strlit("->   ");
            reveal_strlit("   ");
            reveal_strlit("\n");
            let t = entry_texts(entries@);
            assert(out@ == header@ + menu_lines(t.take(i + 1), sel as int));
        }
        i = i + 1;
    }
    proof {
        assert(entry_texts(entries@).take(entries.len() as int) == entry_texts(entries@));
    }
    out
}

/// The cursor of `screen` points at one of its entries (or lines); the
/// tutorial is at one of its nine lessons and the key describer has counted
/// at most one Escape.
pub open spec fn cursor_in_range(screen: AppScreen, ctx: MenuContext) -> bool {
    match screen {
        AppScreen::MainMenu { selection } => selection < main_menu_len(ctx.game_in_progress),
        AppScreen::PauseMenu { selection } => selection < PAUSE_MENU_LEN,
        AppScreen::SaveScreen { selection } => selection < SLOT_MENU_LEN,
        AppScreen::LoadScreen { selection } => selection < SLOT_MENU_LEN,
        AppScreen::Leaderboard { selection } => selection < ctx.leaderboard_items,
        AppScreen::Settings { selection } => selection < SETTINGS_LEN,
        AppScreen::VisualSettings { selection } => selection < VISUAL_SETTINGS_LEN,
        AppScreen::SpeechVerbosity { selection } => selection < SPEECH_SETTINGS_LEN,
        AppScreen::HowToPlay { scroll_line } => scroll_line < ctx.how_to_play_lines,
        AppScreen::About { scroll_line } => scroll_line < ctx.about_lines,
        AppScreen::Update { selection, status } => selection < update_menu_len(status),
        AppScreen::Tutorial { stage } => 1 <= stage <= 9,
        AppScreen::KeyDescriber { esc_count } => esc_count <= 1,
        _ => true,
    }
}

/// Whether a game is in progress once `e` has been carried out (a load
/// counts as done, since the screen it leads to is shown only then).
pub open spec fn in_prog_after(e: MenuEffect, ip: bool) -> bool {
    match e {
        MenuEffect::NewGame | MenuEffect::LoadSlot(_) => true,
        MenuEffect::AbandonGame => false,
        MenuEffect::StartTutorial { end_game } => !end_game && ip,
        _ => ip,
    }
}

/// The screens whose entries the cursor cycles through.
pub open spec fn is_list_menu(screen: AppScreen) -> bool {
    ||| screen is MainMenu
    ||| screen is PauseMenu
    ||| screen is SaveScreen
    ||| screen is LoadScreen
    ||| screen is Leaderboard
    ||| screen is Settings
    ||| screen is VisualSettings
    ||| screen is SpeechVerbosity
    ||| screen is Update
}

/// Moving the cursor up or down never leaves a menu's entries: an entry above
/// the first is the last, and below the last is the first.
pub proof fn lemma_wrap_in_range(sel: int, n: int)
    requires
        0 <= sel < n,
    ensures
        0 <= wrap_up(sel, n) < n,
        0 <= wrap_down(sel, n) < n,
        wrap_up(wrap_down(sel, n), n) == sel,
        wrap_down(wrap_up(sel, n), n) == sel,
{
}

/// Whatever the player does, the cursor of the next screen points at one of
/// its entries, given that it did on the screen before.
pub proof fn lemma_navigation_keeps_cursor(screen: AppScreen, a: InputAction, ctx: MenuContext)
    requires
        context_ok(ctx),
        cursor_in_range(screen, ctx),
    ensures
        cursor_in_range(
            navigation(screen, a, ctx).screen,
            MenuContext {
                game_in_progress: in_prog_after(navigation(screen, a, ctx).effect, ctx.game_in_progress),
                ..ctx
            },
        ),
{
}

/// On any menu, Down then Up (or Up then Down) returns to the same screen
/// and entry.
pub proof fn lemma_up_undoes_down(screen: AppScreen, ctx: MenuContext)
    requires
        context_ok(ctx),
        cursor_in_range(screen, ctx),
        is_list_menu(screen),
    ensures
        navigation(navigation(screen, InputAction::Down, ctx).screen, InputAction::Up, ctx).screen == screen,
        navigation(navigation(screen, InputAction::Up, ctx).screen, InputAction::Down, ctx).screen == screen,
{
}

/// An entry of the update screen.
#[derive(Clone, Copy, PartialEq, Eq, Debug, Structural)]
pub enum UpdateEntry {
    Install,
    Check,
    Back,
}

/// The entries the update screen lists: installing when an update is
/// available, checking unless a download runs, and Back.
pub open spec fn update_entry_list(status: UpdateStatus) -> Seq<UpdateEntry> {
    match status {
        UpdateStatus::Available(_) => seq![UpdateEntry::Install, UpdateEntry::Check, UpdateEntry::Back],
        UpdateStatus::Downloading => seq![UpdateEntry::Back],
        _ => seq![UpdateEntry::Check, UpdateEntry::Back],
    }
}

/// The entries of the update screen (see `update_entry_list`).
pub fn update_entries(status: &UpdateStatus) -> (r: Vec<UpdateEntry>)
    ensures
        r@ == update_entry_list(*status),
{
    match status {
        UpdateStatus::Available(_) => vec![UpdateEntry::Install, UpdateEntry::Check, UpdateEntry::Back],
        UpdateStatus::Downloading => vec![UpdateEntry::Back],
        _ => vec![UpdateEntry::Check, UpdateEntry::Back],
    }
}

/// What the update screen says aloud.
#[derive(Clone, Copy, PartialEq, Eq, Debug, Structural)]
pub enum UpdateSpeech {
    /// That a check is running.
    Checking,
    /// The offer to install the available version.
    InstallOffer,
    /// The chosen entry and its position in the list.
    Entry,
}

/// The update screen says that a check runs while it does, offers the
/// available version when its install entry is shown as chosen, and reads the
/// chosen entry otherwise.
pub open spec fn update_speech_for(status: UpdateStatus, selection: usize) -> UpdateSpeech {
    if status is Checking {
        UpdateSpeech::Checking
    } else if status is Available && shown_entry(selection as int, 3) == 0 {
        UpdateSpeech::InstallOffer
    } else {
        UpdateSpeech::Entry
    }
}

/// What the update screen says aloud (see `update_speech_for`).
pub fn update_speech(status: &UpdateStatus, selection: usize) -> (r: UpdateSpeech)
    ensures
        r == update_speech_for(*status, selection),
{
    match status {
        UpdateStatus::Checking => UpdateSpeech::Checking,
        UpdateStatus::Available(_) => if clamp_selection(selection, 3) == 0 {
            UpdateSpeech::InstallOffer
        } else {
            UpdateSpeech::Entry
        },
        _ => UpdateSpeech::Entry,
    }
}

/// In the key describer every key but Escape is only described, and two
/// Escapes in a row leave it for the menu it was opened from.
pub proof fn lemma_key_describer(c: usize, a: InputAction, ctx: MenuContext)
    requires
        c <= 1,
    ensures
        a != InputAction::Back ==> navigation(AppScreen::KeyDescriber { esc_count: c }, a, ctx) == nav(
            AppScreen::KeyDescriber { esc_count: 0 },
            MenuSound::Move,
            MenuEffect::Describe(a),
            false,
            false,
        ),
        navigation(
            navigation(AppScreen::KeyDescriber { esc_count: 0 }, InputAction::Back, ctx).screen,
            InputAction::Back,
            ctx,
        ).screen == if ctx.game_in_progress {
            AppScreen::PauseMenu { selection: 0 }
        } else {
            AppScreen::MainMenu { selection: 0 }
        },
{
}

/// Start pauses a game and resumes it: from the game it opens the pause menu
/// and from there it returns to the game.
pub proof fn lemma_start_toggles_pause(ctx: MenuContext)
    ensures
        navigation(AppScreen::InGame, InputAction::Start, ctx).screen == (AppScreen::PauseMenu { selection: 0 }),
        navigation(navigation(AppScreen::InGame, InputAction::Start, ctx).screen, InputAction::Start, ctx).screen
            == AppScreen::InGame,
{
}

} // verus!
