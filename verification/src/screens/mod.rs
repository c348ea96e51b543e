//! The screens of the application and the text renderings that need no
//! message catalog.
pub mod in_game_screen;
pub mod leaderboard;
pub mod menu;
pub mod tutorial_screen;

use vstd::prelude::*;
use crate::updater::{UpdateInfo, UpdateStatus};

verus! {

/// An action that asks for confirmation first.
#[derive(Clone, PartialEq, Debug)]
pub enum ConfirmAction {
    NewGame,
    StartTutorial,
    AbandonGame,
    QuitApp,
    UpdateApp(UpdateInfo),
}

/// The screen being shown, with its cursor.
#[derive(Clone, PartialEq, Debug)]
pub enum AppScreen {
    TutorialPrompt,
    Tutorial { stage: usize },
    MainMenu { selection: usize },
    PauseMenu { selection: usize },
    SaveScreen { selection: usize },
    LoadScreen { selection: usize },
    Leaderboard { selection: usize },
    Settings { selection: usize },
    VisualSettings { selection: usize },
    SpeechVerbosity { selection: usize },
    HowToPlay { scroll_line: usize },
    About { scroll_line: usize },
    Update { selection: usize, status: UpdateStatus },
    ConfirmDialog { action: ConfirmAction },
    InGame,
    KeyDescriber { esc_count: usize },
}

} // verus!
