//! Player input: the actions, the keys that produce them, and the rules of
//! the key-describer help mode and the screen-reader toggle key.
use vstd::prelude::*;
use crate::screens::{AppScreen, ConfirmAction};

verus! {

/// Something the player asked for with a key.
#[derive(Clone, Copy, PartialEq, Eq, Debug, Structural)]
pub enum InputAction {
    Up,
    Down,
    Left,
    Right,
    Select,
    Back,
    HardDrop,
    Radar,
    RotateLeft,
    RotateRight,
    Start,
    NextTrack,
    PrevTrack,
    Mute,
    Hold,
    Zone,
    UseItem,
    HelpMode,
    PieceInfo,
}

/// Key code of the screen-reader toggle key (F12).
pub const SCREEN_READER_TOGGLE_KEY: i32 = 351;

/// Seconds within which a second press of the toggle key confirms it.
pub const SCREEN_READER_TOGGLE_CONFIRM_SECS: u64 = 5;

/// The action bound to key code `k`: arrows and WASD move, Return and keypad
/// Enter select, Escape goes back, Space hard-drops, Z and comma rotate left,
/// X and period rotate right, C and slash hold, E and L sweep the radar, Q and
/// K enter the Zone, V and semicolon describe the piece, Shift uses the item,
/// I, O and P pick the previous track, mute and pick the next track, and H
/// opens the key describer. Up (arrow or W) does nothing during a game.
pub open spec fn key_action(k: i32, in_game: bool) -> Option<InputAction> {
    if k == 315 || k == 87 || k == 119 {
        if in_game {
            None
        } else {
            Some(InputAction::Up)
        }
    } else if k == 317 || k == 83 || k == 115 {
        Some(InputAction::Down)
    } else if k == 314 || k == 65 || k == 97 {
        Some(InputAction::Left)
    } else if k == 316 || k == 68 || k == 100 {
        Some(InputAction::Right)
    } else if k == 13 || k == 370 {
        Some(InputAction::Select)
    } else if k == 27 {
        Some(InputAction::Back)
    } else if k == 32 {
        Some(InputAction::HardDrop)
    } else if k == 90 || k == 122 || k == 44 {
        Some(InputAction::RotateLeft)
    } else if k == 88 || k == 120 || k == 46 {
        Some(InputAction::RotateRight)
    } else if k == 67 || k == 99 || k == 47 {
        Some(InputAction::Hold)
    } else if k == 69 || k == 101 || k == 76 || k == 108 {
        Some(InputAction::Radar)
    } else if k == 81 || k == 113 || k == 75 || k == 107 {
        Some(InputAction::Zone)
    } else if k == 86 || k == 118 || k == 59 || k == 186 {
        Some(InputAction::PieceInfo)
    } else if k == 306 || k == 344 || k == 160 || k == 161 {
        Some(InputAction::UseItem)
    } else if k == 73 || k == 105 {
        Some(InputAction::PrevTrack)
    } else if k == 79 || k == 111 {
        Some(InputAction::Mute)
    } else if k == 80 || k == 112 {
        Some(InputAction::NextTrack)
    } else if k == 72 || k == 104 {
        Some(InputAction::HelpMode)
    } else {
        None
    }
}

/// The action of key code `key` (`None` for an unbound key); `in_game` tells
/// whether a game is being played on screen.
pub fn action_for_key(key: i32, in_game: bool) -> (r: Option<InputAction>)
    ensures
        r == key_action(key, in_game),
{
    match key {
        315 | 87 | 119 => {
            if in_game {
                None
            } else {
                Some(InputAction::Up)
            }
        },
        317 | 83 | 115 => Some(InputAction::Down),
        314 | 65 | 97 => Some(InputAction::Left),
        316 | 68 | 100 => Some(InputAction::Right),
        13 | 370 => Some(InputAction::Select),
        27 => Some(InputAction::Back),
        32 => Some(InputAction::HardDrop),
        90 | 122 | 44 => Some(InputAction::RotateLeft),
        88 | 120 | 46 => Some(InputAction::RotateRight),
        67 | 99 | 47 => Some(InputAction::Hold),
        69 | 101 | 76 | 108 => Some(InputAction::Radar),
        81 | 113 | 75 | 107 => Some(InputAction::Zone),
        86 | 118 | 59 | 186 => Some(InputAction::PieceInfo),
        306 | 344 | 160 | 161 => Some(InputAction::UseItem),
        73 | 105 => Some(InputAction::PrevTrack),
        79 | 111 => Some(InputAction::Mute),
        80 | 112 => Some(InputAction::NextTrack),
        72 | 104 => Some(InputAction::HelpMode),
        _ => None,
    }
}

/// Menu music plays everywhere except during play: in the tutorial, in a
/// game, on the pause, save and load screens while a game is in progress, and
/// in the dialog that asks to abandon the game.
pub open spec fn menu_music(screen: AppScreen, game_in_progress: bool) -> bool {
    match screen {
        AppScreen::Tutorial { .. } | AppScreen::InGame => false,
        AppScreen::PauseMenu { .. } | AppScreen::SaveScreen { .. } | AppScreen::LoadScreen {
            ..
        } => !game_in_progress,
        AppScreen::ConfirmDialog { action: ConfirmAction::AbandonGame } => false,
        _ => true,
    }
}

/// Whether menu music (rather than the game's tracks) belongs on `screen`.
pub fn should_use_menu_music(screen: &AppScreen, game_in_progress: bool) -> (r: bool)
    ensures
        r == menu_music(*screen, game_in_progress),
{
    match screen {
        AppScreen::Tutorial { .. } | AppScreen::InGame => false,
        AppScreen::PauseMenu { .. } | AppScreen::SaveScreen { .. } | AppScreen::LoadScreen {
            ..
        } => !game_in_progress,
        AppScreen::ConfirmDialog { action: ConfirmAction::AbandonGame } => false,
        _ => true,
    }
}

/// What a key press means to the screen-reader toggle.
#[derive(Clone, Copy, PartialEq, Eq, Debug, Structural)]
pub enum ReaderToggle {
    /// The toggle key, pressed again within the confirmation window: flip the
    /// screen reader.
    Confirm,
    /// The toggle key, with no confirmation pending: ask for confirmation.
    Arm,
    /// Another key, within the window of a pending confirmation: the request
    /// lapses and the player hears that nothing changed.
    Cancel,
    /// Another key with no pending confirmation, or after the window closed.
    Ignore,
}

/// What a press means given whether it is the toggle key and, when a
/// confirmation is pending, how many milliseconds ago it was asked for.
pub open spec fn reader_toggle(is_toggle_key: bool, pending_ms: Option<u64>) -> ReaderToggle {
    let within = match pending_ms {
        Some(ms) => ms <= SCREEN_READER_TOGGLE_CONFIRM_SECS * 1000,
        None => false,
    };
    if is_toggle_key {
        if within {
            ReaderToggle::Confirm
        } else {
            ReaderToggle::Arm
        }
    } else if within {
        ReaderToggle::Cancel
    } else {
        ReaderToggle::Ignore
    }
}

/// Decides what a key press does to the screen-reader toggle. After
/// `Confirm`, `Cancel` and any other key the pending request is dropped; after
/// `Arm` a new one starts now.
pub fn screen_reader_toggle(is_toggle_key: bool, pending_ms: Option<u64>) -> (r: ReaderToggle)
    ensures
        r == reader_toggle(is_toggle_key, pending_ms),
{
    let within = match pending_ms {
        Some(ms) => ms <= SCREEN_READER_TOGGLE_CONFIRM_SECS * 1000,
        None => false,
    };
    if is_toggle_key {
        if within {
            ReaderToggle::Confirm
        } else {
            ReaderToggle::Arm
        }
    } else if within {
        ReaderToggle::Cancel
    } else {
        ReaderToggle::Ignore
    }
}

} // verus!
