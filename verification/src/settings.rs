//! Player-facing option enums: difficulty, theme, window size and font scale.
use vstd::prelude::*;

verus! {

/// How fast pieces fall at the start of a game.
#[derive(Clone, Copy, PartialEq, Eq, Debug, Structural)]
pub enum Difficulty {
    Easy,
    Moderate,
    Difficult,
}

/// The English label of a difficulty, as stored in save slots and high scores.
pub open spec fn difficulty_label(d: Difficulty) -> Seq<char> {
    match d {
        Difficulty::Easy => "Easy"@,
        Difficulty::Moderate => "Moderate"@,
        Difficulty::Difficult => "Difficult"@,
    }
}

impl Difficulty {
    pub fn as_str(&self) -> (r: &'static str)
        ensures
            r@ == difficulty_label(*self),
    {
        match self {
            Difficulty::Easy => "Easy",
            Difficulty::Moderate => "Moderate",
            Difficulty::Difficult => "Difficult",
        }
    }
}

/// The difficulty after `d` in the cycle Easy, Moderate, Difficult.
pub open spec fn difficulty_after(d: Difficulty) -> Difficulty {
    match d {
        Difficulty::Easy => Difficulty::Moderate,
        Difficulty::Moderate => Difficulty::Difficult,
        Difficulty::Difficult => Difficulty::Easy,
    }
}

/// The difficulty before `d` in the same cycle.
pub open spec fn difficulty_before(d: Difficulty) -> Difficulty {
    match d {
        Difficulty::Easy => Difficulty::Difficult,
        Difficulty::Moderate => Difficulty::Easy,
        Difficulty::Difficult => Difficulty::Moderate,
    }
}

/// The difficulty one step forward or back from `d` in the settings cycle.
pub fn cycle_difficulty(d: Difficulty, forward: bool) -> (r: Difficulty)
    ensures
        r == if forward { difficulty_after(d) } else { difficulty_before(d) },
{
    if forward {
        match d {
            Difficulty::Easy => Difficulty::Moderate,
            Difficulty::Moderate => Difficulty::Difficult,
            Difficulty::Difficult => Difficulty::Easy,
        }
    } else {
        match d {
            Difficulty::Easy => Difficulty::Difficult,
            Difficulty::Moderate => Difficulty::Easy,
            Difficulty::Difficult => Difficulty::Moderate,
        }
    }
}

/// Stepping the difficulty forward and then back (or back and then forward)
/// returns to where it was; three steps forward go all the way round.
pub proof fn lemma_difficulty_cycle(d: Difficulty)
    ensures
        difficulty_before(difficulty_after(d)) == d,
        difficulty_after(difficulty_before(d)) == d,
        difficulty_after(difficulty_after(difficulty_after(d))) == d,
{
}

/// Colour theme requested by the player.
#[derive(Clone, Copy, PartialEq, Eq, Debug, Structural)]
pub enum ThemePreference {
    System,
    Dark,
    Light,
}

/// Size of the game window.
#[derive(Clone, Copy, PartialEq, Eq, Debug, Structural)]
pub enum WindowSizeMode {
    Standard,
    Large,
    Maximized,
}

/// The size after `w` in the cycle Standard, Large, Maximized.
pub open spec fn window_size_after(w: WindowSizeMode) -> WindowSizeMode {
    match w {
        WindowSizeMode::Standard => WindowSizeMode::Large,
        WindowSizeMode::Large => WindowSizeMode::Maximized,
        WindowSizeMode::Maximized => WindowSizeMode::Standard,
    }
}

/// The size before `w` in the cycle Standard, Large, Maximized.
pub open spec fn window_size_before(w: WindowSizeMode) -> WindowSizeMode {
    match w {
        WindowSizeMode::Standard => WindowSizeMode::Maximized,
        WindowSizeMode::Large => WindowSizeMode::Standard,
        WindowSizeMode::Maximized => WindowSizeMode::Large,
    }
}

impl WindowSizeMode {
    pub fn next(&self) -> (r: Self)
        ensures
            r == window_size_after(*self),
    {
        match self {
            WindowSizeMode::Standard => WindowSizeMode::Large,
            WindowSizeMode::Large => WindowSizeMode::Maximized,
            WindowSizeMode::Maximized => WindowSizeMode::Standard,
        }
    }

    pub fn prev(&self) -> (r: Self)
        ensures
            r == window_size_before(*self),
    {
        match self {
            WindowSizeMode::Standard => WindowSizeMode::Maximized,
            WindowSizeMode::Large => WindowSizeMode::Standard,
            WindowSizeMode::Maximized => WindowSizeMode::Large,
        }
    }
}

/// Size of the on-screen text.
#[derive(Clone, Copy, PartialEq, Eq, Debug, Structural)]
pub enum FontScale {
    Standard,
    Large,
    ExtraLarge,
}

/// The scale after `f` in the cycle Standard, Large, ExtraLarge.
pub open spec fn font_scale_after(f: FontScale) -> FontScale {
    match f {
        FontScale::Standard => FontScale::Large,
        FontScale::Large => FontScale::ExtraLarge,
        FontScale::ExtraLarge => FontScale::Standard,
    }
}

/// The scale before `f` in the cycle Standard, Large, ExtraLarge.
pub open spec fn font_scale_before(f: FontScale) -> FontScale {
    match f {
        FontScale::Standard => FontScale::ExtraLarge,
        FontScale::Large => FontScale::Standard,
        FontScale::ExtraLarge => FontScale::Large,
    }
}

/// Point size of the text for a scale.
pub open spec fn font_points(f: FontScale) -> int {
    match f {
        FontScale::Standard => 14,
        FontScale::Large => 18,
        FontScale::ExtraLarge => 22,
    }
}

impl FontScale {
    pub fn next(&self) -> (r: Self)
        ensures
            r == font_scale_after(*self),
    {
        match self {
            FontScale::Standard => FontScale::Large,
            FontScale::Large => FontScale::ExtraLarge,
            FontScale::ExtraLarge => FontScale::Standard,
        }
    }

    pub fn prev(&self) -> (r: Self)
        ensures
            r == font_scale_before(*self),
    {
        match self {
            FontScale::Standard => FontScale::ExtraLarge,
            FontScale::Large => FontScale::Standard,
            FontScale::ExtraLarge => FontScale::Large,
        }
    }

    pub fn point_size(&self) -> (r: i32)
        ensures
            r == font_points(*self),
    {
        match self {
            FontScale::Standard => 14,
            FontScale::Large => 18,
            FontScale::ExtraLarge => 22,
        }
    }
}

/// Stepping a window size back undoes stepping it forward (and the other way
/// round), and three steps forward come back to the starting size.
pub proof fn lemma_window_size_cycle(w: WindowSizeMode)
    ensures
        window_size_before(window_size_after(w)) == w,
        window_size_after(window_size_before(w)) == w,
        window_size_after(window_size_after(window_size_after(w))) == w,
{
}

/// Stepping a font scale back undoes stepping it forward (and the other way
/// round), three steps forward come back to the start, and each step forward
/// from Standard or Large makes the text larger.
pub proof fn lemma_font_scale_cycle(f: FontScale)
    ensures
        font_scale_before(font_scale_after(f)) == f,
        font_scale_after(font_scale_before(f)) == f,
        font_scale_after(font_scale_after(font_scale_after(f))) == f,
        f != FontScale::ExtraLarge ==> font_points(font_scale_after(f)) > font_points(f),
{
}

/// Background and text colours of the window: one dark palette, whatever
/// the theme preference.
pub fn theme_colors(theme: ThemePreference) -> (r: ((u8, u8, u8), (u8, u8, u8)))
    ensures
        r == ((18u8, 18u8, 24u8), (245u8, 245u8, 245u8)),
{
    ((18, 18, 24), (245, 245, 245))
}

} // verus!
