//! What the player hears after a piece locks or a Zone ends: the sounds and
//! the spoken phrases, in order.
use vstd::prelude::*;
use crate::logic::{
    blocks_fit, max_block_x, max_height_upto, min_block_x, GameState, ItemType, LockResult,
    TetrominoType, BOARD_WIDTH,
};
use crate::controls::InputAction;
use crate::play::PlayEvent;
use crate::screens::tutorial_screen::{TutorialEvent, TutorialState};

verus! {

/// A sound effect.
#[derive(Clone, Copy, PartialEq, Eq, Debug, Structural)]
pub enum SoundCue {
    /// The chord of a clear of this many lines.
    Clear(u32),
    TSpin,
    BackToBack,
    ZoneEnter,
    Lock,
    /// The spawn tone of a new piece of this shape.
    Spawn(TetrominoType),
    ItemAcquire,
    ItemSpawn,
    /// The sideways-move tone, panned by this column.
    HorizontalMove(i32),
    /// The tick of a piece against a wall, or of a move that did not fit.
    Aligned,
    /// The clockwise turn sound, pitched by this row.
    RotateCw(i32),
    /// The counter-clockwise turn sound, pitched by this row.
    RotateCcw(i32),
    Hold,
    HoldSwap,
    HoldDenied,
    /// The soft-drop tone, pitched by this row.
    SoftDrop(i32),
    HardDrop,
    /// The radar sweep over the stack heights.
    RadarSweep,
    /// The sound of this item being used.
    ItemUse(ItemType),
    /// The menu's select sound.
    MenuSelect,
}

/// A phrase of spoken text; a message is one or more phrases read together.
#[derive(Clone, Copy, PartialEq, Eq, Debug, Structural)]
pub enum Phrase {
    /// Lines cleared during the Zone this turn, and in the Zone so far.
    ZoneCleared { cleared: u32, total: u32 },
    /// Lines cleared, worded for a hard drop or for a lock.
    LinesCleared { count: u32, hard_drop: bool },
    TSpinTag,
    BackToBackTag,
    /// The combo count.
    ComboTag(u32),
    LevelScore { level: u32, score: u32 },
    TSpinScore(u32),
    HardDropScore(u32),
    ZoneMeterFull,
    GameOver(u32),
    PieceName(TetrominoType),
    ItemAcquired(ItemType),
    ItemSpawned(ItemType),
    /// The Zone ended with this many lines cleared; the score after.
    ZoneEnded { cleared: u32, score: u32 },
    /// The Zone ended with no line cleared.
    ZoneEndedEmpty,
    /// The piece moved left; its leftmost column.
    MovedLeft(i32),
    /// The piece moved right; its leftmost column.
    MovedRight(i32),
    /// The piece turned to this rotation; its leftmost and rightmost columns.
    Rotated { clockwise: bool, rotation: usize, left: i32, right: i32 },
    /// The current piece, its columns and width, and the held shape.
    PieceInfo { piece: TetrominoType, left: i32, right: i32, width: i32, held: Option<TetrominoType> },
    /// The shape put on hold and the new shape.
    HeldPiece { stored: TetrominoType, new: TetrominoType },
    AlreadyHeld,
    /// The row the piece is now on (counting from 1).
    SoftDropRow(i64),
    ZoneActivated,
    ZoneNotCharged,
    UsedItem(ItemType),
    NoItem,
    /// The radar's report: the tallest column's height.
    RadarReport(u32),
    Paused,
    /// The tutorial was left.
    TutorialExited,
    /// The movement lesson's piece reached the left (or right) wall.
    EdgeReached { left: bool },
    /// The movement lesson's piece moved left (or right) to this column
    /// (counting from 1).
    MovedTo { left: bool, column: i64 },
    /// The rotation lesson's piece, inspected: its columns and width.
    Inspected { left: i32, right: i32, width: i32 },
    /// The rotation lesson's piece turned; its leftmost and rightmost columns.
    LessonTurned { clockwise: bool, left: i32, right: i32 },
    /// The hold lesson's first hold.
    LessonHoldFirst,
    /// The hold lesson's swap back.
    LessonHoldSwap,
    /// The hold lesson's refused hold.
    LessonHoldDenied,
    /// The radar lesson's sweep is complete.
    ScanComplete,
    /// The Zone lesson's Zone is active.
    LessonZoneActive,
    /// What the item lesson's item did: the first or the second item.
    ItemLessonResult { first: bool },
    /// The main menu, as it opens after the tutorial.
    MainMenuOpened,
}

/// One step of what is heard.
#[derive(Clone, PartialEq, Debug)]
pub enum Cue {
    Sound(SoundCue),
    /// A message; `interrupt` cuts off what is being spoken.
    Say { phrases: Vec<Phrase>, interrupt: bool },
}

/// The spoken form of a cue, for contracts.
pub enum CueView {
    Sound(SoundCue),
    Say(Seq<Phrase>, bool),
}

/// The view of a cue.
pub open spec fn cue_view(c: Cue) -> CueView {
    match c {
        Cue::Sound(s) => CueView::Sound(s),
        Cue::Say { phrases, interrupt } => CueView::Say(phrases@, interrupt),
    }
}

/// The views of a list of cues.
pub open spec fn cue_views(cs: Seq<Cue>) -> Seq<CueView> {
    cs.map_values(|c: Cue| cue_view(c))
}

/// A message of one phrase.
pub open spec fn say1(p: Phrase, interrupt: bool) -> CueView {
    CueView::Say(seq![p], interrupt)
}

/// The message that reports a clear: the count, then (with advanced scoring
/// details) the T-spin, back-to-back and combo tags, then level and score.
pub open spec fn clear_message(r: LockResult, gs: GameState, hard_drop: bool, advanced: bool) -> Seq<Phrase> {
    seq![Phrase::LinesCleared { count: r.cleared_lines, hard_drop }] + (if r.is_t_spin && advanced {
        seq![Phrase::TSpinTag]
    } else {
        seq![]
    }) + (if r.b2b_bonus && advanced {
        seq![Phrase::BackToBackTag]
    } else {
        seq![]
    }) + (if r.combo > 1 && advanced {
        seq![Phrase::ComboTag(r.combo)]
    } else {
        seq![]
    }) + seq![Phrase::LevelScore { level: gs.level, score: gs.score }]
}

/// What is heard after a clear of `r.cleared_lines` (at least one) lines:
/// the chord, the T-spin and back-to-back sounds, then the message.
pub open spec fn clear_cues(r: LockResult, gs: GameState, hard_drop: bool, advanced: bool) -> Seq<CueView> {
    seq![CueView::Sound(SoundCue::Clear(r.cleared_lines))] + (if r.is_t_spin {
        seq![CueView::Sound(SoundCue::TSpin)]
    } else {
        seq![]
    }) + (if r.b2b_bonus {
        seq![CueView::Sound(SoundCue::BackToBack)]
    } else {
        seq![]
    }) + seq![CueView::Say(clear_message(r, gs, hard_drop, advanced), true)]
}

/// What is heard when a lock clears nothing: the T-spin score (with advanced
/// scoring details), then the score after a hard drop or the lock sound.
pub open spec fn quiet_cues(r: LockResult, gs: GameState, hard_drop: bool, advanced: bool) -> Seq<CueView> {
    (if r.is_t_spin && advanced {
        seq![CueView::Sound(SoundCue::TSpin), say1(Phrase::TSpinScore(gs.score), true)]
    } else {
        seq![]
    }) + if hard_drop {
        seq![say1(Phrase::HardDropScore(gs.score), true)]
    } else {
        seq![CueView::Sound(SoundCue::Lock)]
    }
}

/// What is heard after the next piece appears: the game over, or the spawn
/// tone and the piece's name, then the item collected and the item that
/// came with the new piece.
pub open spec fn spawn_cues(gs: GameState) -> Seq<CueView> {
    if gs.is_game_over {
        seq![say1(Phrase::GameOver(gs.score), true)]
    } else {
        seq![CueView::Sound(SoundCue::Spawn(gs.current_piece.t_type)), say1(Phrase::PieceName(gs.current_piece.t_type), false)]
            + (match gs.item_acquired {
            Some(i) => seq![CueView::Sound(SoundCue::ItemAcquire), say1(Phrase::ItemAcquired(i), true)],
            None => seq![],
        }) + match gs.item_spawned {
            Some(i) => seq![CueView::Sound(SoundCue::ItemSpawn), say1(Phrase::ItemSpawned(i), false)],
            None => seq![],
        }
    }
}

/// The Zone lines of a lock made during the Zone.
pub open spec fn zone_cues(r: LockResult, gs: GameState) -> Seq<CueView> {
    if r.zone_lines_cleared_this_turn > 0 {
        seq![
            CueView::Sound(SoundCue::Clear(r.zone_lines_cleared_this_turn)),
            say1(Phrase::ZoneCleared { cleared: r.zone_lines_cleared_this_turn, total: gs.zone_lines_cleared }, true),
        ]
    } else {
        seq![]
    }
}

/// The alert that the Zone meter is full, when alerts are on.
pub open spec fn alert_cues(r: LockResult, alerts: bool, interrupt: bool) -> Seq<CueView> {
    if r.zone_meter_full && alerts {
        seq![CueView::Sound(SoundCue::ZoneEnter), say1(Phrase::ZoneMeterFull, interrupt)]
    } else {
        seq![]
    }
}

/// The clear, or the quiet lock.
pub open spec fn outcome_cues(r: LockResult, gs: GameState, hard_drop: bool, advanced: bool) -> Seq<CueView> {
    if r.cleared_lines > 0 {
        clear_cues(r, gs, hard_drop, advanced)
    } else {
        quiet_cues(r, gs, hard_drop, advanced)
    }
}

/// What is heard after a lock with result `r`, leaving game `gs`: for a hard
/// drop the Zone lines, or else the clear or the quiet lock, then the
/// full-meter alert (if alerts are on); for a lock at the end of the lock
/// delay the Zone lines, the alert, then the clear or the quiet lock; in
/// both cases the game over or the new piece last.
pub open spec fn lock_cue_list(r: LockResult, gs: GameState, hard_drop: bool, advanced: bool, alerts: bool) -> Seq<CueView> {
    if hard_drop {
        (if r.zone_lines_cleared_this_turn > 0 {
            zone_cues(r, gs)
        } else {
            outcome_cues(r, gs, true, advanced)
        }) + alert_cues(r, alerts, false) + spawn_cues(gs)
    } else {
        zone_cues(r, gs) + alert_cues(r, alerts, true) + outcome_cues(r, gs, false, advanced) + spawn_cues(gs)
    }
}

/// What is heard when the Zone runs out with `lines` lines cleared.
pub open spec fn zone_end_cue_list(lines: u32, score: u32) -> Seq<CueView> {
    if lines > 0 {
        seq![CueView::Sound(SoundCue::Clear(lines)), say1(Phrase::ZoneEnded { cleared: lines, score }, true)]
    } else {
        seq![say1(Phrase::ZoneEndedEmpty, true)]
    }
}

/// Appends a sound.
fn sound(out: &mut Vec<Cue>, s: SoundCue)
    ensures
        cue_views(final(out)@) == cue_views(old(out)@).push(CueView::Sound(s)),
{
    out.push(Cue::Sound(s));
    assert(cue_views(final(out)@) =~= cue_views(old(out)@).push(CueView::Sound(s)));
}

/// Appends a message of one phrase.
fn say(out: &mut Vec<Cue>, p: Phrase, interrupt: bool)
    ensures
        cue_views(final(out)@) == cue_views(old(out)@).push(say1(p, interrupt)),
{
    let phrases = vec![p];
    assert(phrases@ =~= seq![p]);
    out.push(Cue::Say { phrases, interrupt });
    assert(cue_views(final(out)@) =~= cue_views(old(out)@).push(say1(p, interrupt)));
}

/// Appends the cues of a clear (see `clear_cues`).
fn push_clear(out: &mut Vec<Cue>, r: &LockResult, gs: &GameState, hard_drop: bool, advanced: bool)
    ensures
        cue_views(final(out)@) == cue_views(old(out)@) + clear_cues(*r, *gs, hard_drop, advanced),
{
    sound(out, SoundCue::Clear(r.cleared_lines));
    if r.is_t_spin {
        sound(out, SoundCue::TSpin);
    }
    if r.b2b_bonus {
        sound(out, SoundCue::BackToBack);
    }
    let mut phrases: Vec<Phrase> = Vec::new();
    phrases.push(Phrase::LinesCleared { count: r.cleared_lines, hard_drop });
    if r.is_t_spin && advanced {
        phrases.push(Phrase::TSpinTag);
    }
    if r.b2b_bonus && advanced {
        phrases.push(Phrase::BackToBackTag);
    }
    if r.combo > 1 && advanced {
        phrases.push(Phrase::ComboTag(r.combo));
    }
    phrases.push(Phrase::LevelScore { level: gs.level, score: gs.score });
    assert(phrases@ =~= clear_message(*r, *gs, hard_drop, advanced));
    let ghost before = cue_views(out@);
    out.push(Cue::Say { phrases, interrupt: true });
    assert(cue_views(out@) =~= before.push(CueView::Say(clear_message(*r, *gs, hard_drop, advanced), true)));
    assert(cue_views(final(out)@) =~= cue_views(old(out)@) + clear_cues(*r, *gs, hard_drop, advanced));
}

/// Appends the cues of a lock that clears nothing (see `quiet_cues`).
fn push_quiet(out: &mut Vec<Cue>, r: &LockResult, gs: &GameState, hard_drop: bool, advanced: bool)
    ensures
        cue_views(final(out)@) == cue_views(old(out)@) + quiet_cues(*r, *gs, hard_drop, advanced),
{
    if r.is_t_spin && advanced {
        sound(out, SoundCue::TSpin);
        say(out, Phrase::TSpinScore(gs.score), true);
    }
    if hard_drop {
        say(out, Phrase::HardDropScore(gs.score), true);
    } else {
        sound(out, SoundCue::Lock);
    }
    assert(cue_views(final(out)@) =~= cue_views(old(out)@) + quiet_cues(*r, *gs, hard_drop, advanced));
}

/// Appends the cues of the new piece (see `spawn_cues`).
fn push_spawn(out: &mut Vec<Cue>, gs: &GameState)
    ensures
        cue_views(final(out)@) == cue_views(old(out)@) + spawn_cues(*gs),
{
    if gs.is_game_over {
        say(out, Phrase::GameOver(gs.score), true);
    } else {
        let t = gs.current_piece.t_type;
        sound(out, SoundCue::Spawn(t));
        say(out, Phrase::PieceName(t), false);
        match gs.item_acquired {
            Some(i) => {
                sound(out, SoundCue::ItemAcquire);
                say(out, Phrase::ItemAcquired(i), true);
            },
            None => {},
        }
        match gs.item_spawned {
            Some(i) => {
                sound(out, SoundCue::ItemSpawn);
                say(out, Phrase::ItemSpawned(i), false);
            },
            None => {},
        }
    }
    assert(cue_views(final(out)@) =~= cue_views(old(out)@) + spawn_cues(*gs));
}

/// Appends the Zone lines (see `zone_cues`).
fn push_zone(out: &mut Vec<Cue>, r: &LockResult, gs: &GameState)
    ensures
        cue_views(final(out)@) == cue_views(old(out)@) + zone_cues(*r, *gs),
{
    let z = r.zone_lines_cleared_this_turn;
    if z > 0 {
        sound(out, SoundCue::Clear(z));
        say(out, Phrase::ZoneCleared { cleared: z, total: gs.zone_lines_cleared }, true);
    }
    assert(cue_views(final(out)@) =~= cue_views(old(out)@) + zone_cues(*r, *gs));
}

/// Appends the full-meter alert (see `alert_cues`).
fn push_alert(out: &mut Vec<Cue>, r: &LockResult, alerts: bool, interrupt: bool)
    ensures
        cue_views(final(out)@) == cue_views(old(out)@) + alert_cues(*r, alerts, interrupt),
{
    if r.zone_meter_full && alerts {
        sound(out, SoundCue::ZoneEnter);
        say(out, Phrase::ZoneMeterFull, interrupt);
    }
    assert(cue_views(final(out)@) =~= cue_views(old(out)@) + alert_cues(*r, alerts, interrupt));
}

/// Appends the clear or the quiet lock (see `outcome_cues`).
fn push_outcome(out: &mut Vec<Cue>, r: &LockResult, gs: &GameState, hard_drop: bool, advanced: bool)
    ensures
        cue_views(final(out)@) == cue_views(old(out)@) + outcome_cues(*r, *gs, hard_drop, advanced),
{
    if r.cleared_lines > 0 {
        push_clear(out, r, gs, hard_drop, advanced);
    } else {
        push_quiet(out, r, gs, hard_drop, advanced);
    }
}

/// What is heard after a lock (see `lock_cue_list`); `gs` is the game after
/// the lock.
pub fn lock_cues(r: &LockResult, gs: &GameState, hard_drop: bool, scoring_advanced: bool, zone_alerts: bool) -> (cues: Vec<Cue>)
    ensures
        cue_views(cues@) == lock_cue_list(*r, *gs, hard_drop, scoring_advanced, zone_alerts),
{
    let mut out: Vec<Cue> = Vec::new();
    let ghost v0 = cue_views(out@);
    assert(v0 =~= Seq::<CueView>::empty());
    if hard_drop {
        if r.zone_lines_cleared_this_turn > 0 {
            push_zone(&mut out, r, gs);
        } else {
            push_outcome(&mut out, r, gs, true, scoring_advanced);
        }
        push_alert(&mut out, r, zone_alerts, false);
        push_spawn(&mut out, gs);
        assert(cue_views(out@) =~= lock_cue_list(*r, *gs, hard_drop, scoring_advanced, zone_alerts));
    } else {
        push_zone(&mut out, r, gs);
        push_alert(&mut out, r, zone_alerts, true);
        push_outcome(&mut out, r, gs, false, scoring_advanced);
        push_spawn(&mut out, gs);
        assert(cue_views(out@) =~= lock_cue_list(*r, *gs, hard_drop, scoring_advanced, zone_alerts));
    }
    out
}

/// What is heard when the Zone runs out (see `zone_end_cue_list`).
pub fn zone_end_cues(lines: u32, score: u32) -> (cues: Vec<Cue>)
    ensures
        cue_views(cues@) == zone_end_cue_list(lines, score),
{
    let mut out: Vec<Cue> = Vec::new();
    if lines > 0 {
        sound(&mut out, SoundCue::Clear(lines));
        say(&mut out, Phrase::ZoneEnded { cleared: lines, score }, true);
    } else {
        say(&mut out, Phrase::ZoneEndedEmpty, true);
    }
    assert(cue_views(out@) =~= zone_end_cue_list(lines, score));
    out
}

/// The columns of the current piece can be named: its cells fit in `i32`,
/// one column to the right of them too.
pub open spec fn columns_known(gs: GameState) -> bool {
    blocks_fit(gs.current_piece) && max_block_x(gs.current_piece) < i32::MAX
}

/// The events that name the piece's columns.
pub open spec fn names_columns(e: PlayEvent) -> bool {
    e == PlayEvent::Shifted(true) || e == PlayEvent::Rotated(true) || e is PieceInfo
}

/// What is heard after action `a`, which the game answered with event `e`,
/// leaving game `gs`: moves and turns are heard with their tones and the
/// piece's columns (a blocked move only ticks), holds, drops, the Zone and
/// items with their sounds and messages, a refused request with the denied
/// sound; a hard drop adds what its lock says.
pub open spec fn play_cue_list(
    e: PlayEvent,
    a: crate::controls::InputAction,
    gs: GameState,
    advanced: bool,
    alerts: bool,
) -> Seq<CueView> {
    let p = gs.current_piece;
    let left = (min_block_x(p) + 1) as i32;
    let right = (max_block_x(p) + 1) as i32;
    match e {
        PlayEvent::Pause => seq![say1(Phrase::Paused, true)],
        PlayEvent::Radar => seq![
            CueView::Sound(SoundCue::RadarSweep),
            say1(Phrase::RadarReport(max_height_upto(gs.board, BOARD_WIDTH as int) as u32), true),
        ],
        PlayEvent::PieceInfo => seq![
            say1(
                Phrase::PieceInfo {
                    piece: p.t_type,
                    left,
                    right,
                    width: (right - left + 1) as i32,
                    held: gs.hold_piece,
                },
                true,
            ),
        ],
        PlayEvent::Shifted(moved) => if !moved {
            seq![CueView::Sound(SoundCue::Aligned)]
        } else if a == crate::controls::InputAction::Left {
            seq![CueView::Sound(SoundCue::HorizontalMove(left))] + (if left == 1 {
                seq![CueView::Sound(SoundCue::Aligned)]
            } else {
                seq![]
            }) + seq![say1(Phrase::MovedLeft(left), true)]
        } else {
            seq![CueView::Sound(SoundCue::HorizontalMove(right))] + (if right == 10 {
                seq![CueView::Sound(SoundCue::Aligned)]
            } else {
                seq![]
            }) + seq![say1(Phrase::MovedRight(left), true)]
        },
        PlayEvent::Rotated(turned) => if !turned {
            seq![CueView::Sound(SoundCue::Aligned)]
        } else {
            let cw = a == crate::controls::InputAction::RotateRight;
            seq![
                CueView::Sound(if cw { SoundCue::RotateCw(p.y) } else { SoundCue::RotateCcw(p.y) }),
                say1(Phrase::Rotated { clockwise: cw, rotation: p.rotation, left, right }, true),
            ]
        },
        PlayEvent::SoftDropped(moved) => if moved {
            seq![CueView::Sound(SoundCue::SoftDrop(p.y)), say1(Phrase::SoftDropRow((p.y + 1) as i64), true)]
        } else {
            seq![]
        },
        PlayEvent::Held(r) => match r {
            Some((swapped, held, new)) => seq![
                CueView::Sound(if swapped { SoundCue::HoldSwap } else { SoundCue::Hold }),
                say1(Phrase::HeldPiece { stored: held, new }, true),
                CueView::Sound(SoundCue::Spawn(p.t_type)),
            ],
            None => seq![CueView::Sound(SoundCue::HoldDenied), say1(Phrase::AlreadyHeld, true)],
        },
        PlayEvent::HardDropped(r) => seq![CueView::Sound(SoundCue::HardDrop)] + lock_cue_list(r, gs, true, advanced, alerts),
        PlayEvent::Zone(started) => if started {
            seq![CueView::Sound(SoundCue::ZoneEnter), say1(Phrase::ZoneActivated, true)]
        } else {
            seq![CueView::Sound(SoundCue::HoldDenied), say1(Phrase::ZoneNotCharged, true)]
        },
        PlayEvent::Item(r) => match r {
            Some(i) => seq![CueView::Sound(SoundCue::ItemUse(i))] + match gs.item_acquired {
                Some(got) => seq![
                    CueView::Sound(SoundCue::ItemAcquire),
                    CueView::Say(seq![Phrase::UsedItem(i), Phrase::ItemAcquired(got)], true),
                ],
                None => seq![say1(Phrase::UsedItem(i), true)],
            },
            None => seq![CueView::Sound(SoundCue::HoldDenied), say1(Phrase::NoItem, true)],
        },
        PlayEvent::Nothing => seq![],
    }
}

/// What is heard after an action during a game (see `play_cue_list`); `gs`
/// is the game after the action.
pub fn play_cues(
    e: &PlayEvent,
    a: crate::controls::InputAction,
    gs: &GameState,
    scoring_advanced: bool,
    zone_alerts: bool,
) -> (cues: Vec<Cue>)
    requires
        names_columns(*e) ==> columns_known(*gs),
    ensures
        cue_views(cues@) == play_cue_list(*e, a, *gs, scoring_advanced, zone_alerts),
{
    let mut out: Vec<Cue> = Vec::new();
    let ghost v0 = cue_views(out@);
    assert(v0 =~= Seq::<CueView>::empty());
    let p = gs.current_piece;
    match e {
        PlayEvent::Pause => say(&mut out, Phrase::Paused, true),
        PlayEvent::Radar => {
            sound(&mut out, SoundCue::RadarSweep);
            say(&mut out, Phrase::RadarReport(gs.max_column_height()), true);
        },
        PlayEvent::PieceInfo => {
            let left = p.left_column();
            let right = p.right_column();
            let width = p.width();
            say(&mut out, Phrase::PieceInfo { piece: p.t_type, left, right, width, held: gs.hold_piece }, true);
        },
        PlayEvent::Shifted(moved) => {
            if !*moved {
                sound(&mut out, SoundCue::Aligned);
            } else if a == crate::controls::InputAction::Left {
                let left = p.left_column();
                sound(&mut out, SoundCue::HorizontalMove(left));
                if left == 1 {
                    sound(&mut out, SoundCue::Aligned);
                }
                say(&mut out, Phrase::MovedLeft(left), true);
            } else {
                let left = p.left_column();
                let right = p.right_column();
                sound(&mut out, SoundCue::HorizontalMove(right));
                if right == 10 {
                    sound(&mut out, SoundCue::Aligned);
                }
                say(&mut out, Phrase::MovedRight(left), true);
            }
        },
        PlayEvent::Rotated(turned) => {
            if !*turned {
                sound(&mut out, SoundCue::Aligned);
            } else {
                let cw = a == crate::controls::InputAction::RotateRight;
                let left = p.left_column();
                let right = p.right_column();
                sound(&mut out, if cw { SoundCue::RotateCw(p.y) } else { SoundCue::RotateCcw(p.y) });
                say(&mut out, Phrase::Rotated { clockwise: cw, rotation: p.rotation, left, right }, true);
            }
        },
        PlayEvent::SoftDropped(moved) => {
            if *moved {
                sound(&mut out, SoundCue::SoftDrop(p.y));
                say(&mut out, Phrase::SoftDropRow((p.y as i64) + 1), true);
            }
        },
        PlayEvent::Held(r) => match r {
            Some((swapped, held, new)) => {
                sound(&mut out, if *swapped { SoundCue::HoldSwap } else { SoundCue::Hold });
                say(&mut out, Phrase::HeldPiece { stored: *held, new: *new }, true);
                sound(&mut out, SoundCue::Spawn(p.t_type));
            },
            None => {
                sound(&mut out, SoundCue::HoldDenied);
                say(&mut out, Phrase::AlreadyHeld, true);
            },
        },
        PlayEvent::HardDropped(r) => {
            sound(&mut out, SoundCue::HardDrop);
            let rest = lock_cues(r, gs, true, scoring_advanced, zone_alerts);
            let ghost before = cue_views(out@);
            let mut rest = rest;
            out.append(&mut rest);
            assert(cue_views(out@) =~= before + lock_cue_list(*r, *gs, true, scoring_advanced, zone_alerts));
        },
        PlayEvent::Zone(started) => {
            if *started {
                sound(&mut out, SoundCue::ZoneEnter);
                say(&mut out, Phrase::ZoneActivated, true);
            } else {
                sound(&mut out, SoundCue::HoldDenied);
                say(&mut out, Phrase::ZoneNotCharged, true);
            }
        },
        PlayEvent::Item(r) => match r {
            Some(i) => {
                sound(&mut out, SoundCue::ItemUse(*i));
                match gs.item_acquired {
                    Some(got) => {
                        sound(&mut out, SoundCue::ItemAcquire);
                        let phrases = vec![Phrase::UsedItem(*i), Phrase::ItemAcquired(got)];
                        let ghost before = cue_views(out@);
                        out.push(Cue::Say { phrases, interrupt: true });
                        assert(cue_views(out@) =~= before.push(
                            CueView::Say(seq![Phrase::UsedItem(*i), Phrase::ItemAcquired(got)], true),
                        ));
                    },
                    None => say(&mut out, Phrase::UsedItem(*i), true),
                }
            },
            None => {
                sound(&mut out, SoundCue::HoldDenied);
                say(&mut out, Phrase::NoItem, true);
            },
        },
        PlayEvent::Nothing => {},
    }
    assert(cue_views(out@) =~= play_cue_list(*e, a, *gs, scoring_advanced, zone_alerts));
    out
}

/// The lesson events that name the piece's columns, given the lesson
/// before the action.
pub open spec fn lesson_names_columns(e: TutorialEvent, stage_before: usize) -> bool {
    ||| (e matches TutorialEvent::Lateral { moved, .. } && moved && stage_before != 1)
    ||| e is Inspect
    ||| e == TutorialEvent::Turn(true)
}

/// What is heard after action `a` in the tutorial, which answered with event
/// `e`, the lesson before being `stage_before` and the tutorial after being
/// `ts`: leaving is heard with the select sound; moves with their tone, the
/// movement lesson ticking at a blocked move and at the wall it asks for;
/// drops, turns, holds, the radar, the Zone and items with their sounds and
/// the lesson's words; a finishing drop with its thud and clear; graduation
/// with the select sound and the main menu; and a new lesson with the
/// select sound last.
pub open spec fn lesson_cue_list(e: TutorialEvent, a: InputAction, stage_before: usize, ts: TutorialState) -> Seq<CueView> {
    let p = ts.game_state.current_piece;
    let left = (min_block_x(p) + 1) as i32;
    let right = (max_block_x(p) + 1) as i32;
    let toward_left = a == InputAction::Left;
    (match e {
        TutorialEvent::Exit => seq![CueView::Sound(SoundCue::MenuSelect), say1(Phrase::TutorialExited, true)],
        TutorialEvent::Lateral { moved, reached_edge, column } => if !moved {
            if stage_before == 1 {
                seq![CueView::Sound(SoundCue::Aligned)]
            } else {
                seq![]
            }
        } else if stage_before == 1 {
            seq![CueView::Sound(SoundCue::HorizontalMove(column))] + if reached_edge {
                seq![CueView::Sound(SoundCue::Aligned), say1(Phrase::EdgeReached { left: toward_left }, true)]
            } else {
                seq![say1(Phrase::MovedTo { left: toward_left, column: (column + 1) as i64 }, true)]
            }
        } else {
            seq![
                CueView::Sound(SoundCue::HorizontalMove(column)),
                say1(if toward_left { Phrase::MovedLeft(left) } else { Phrase::MovedRight(left) }, true),
            ]
        },
        TutorialEvent::SoftDrop(moved) => if moved {
            seq![CueView::Sound(SoundCue::SoftDrop(p.y)), say1(Phrase::SoftDropRow((p.y + 1) as i64), true)]
        } else {
            seq![]
        },
        TutorialEvent::Inspect => seq![
            say1(Phrase::Inspected { left, right, width: (right - left + 1) as i32 }, true),
        ],
        TutorialEvent::Turn(turned) => if turned {
            let cw = a == InputAction::RotateRight;
            seq![
                CueView::Sound(if cw { SoundCue::RotateCw(p.y) } else { SoundCue::RotateCcw(p.y) }),
                say1(Phrase::LessonTurned { clockwise: cw, left, right }, true),
            ]
        } else {
            seq![]
        },
        TutorialEvent::HoldFirst => seq![
            CueView::Sound(SoundCue::Hold),
            say1(Phrase::LessonHoldFirst, true),
            CueView::Sound(SoundCue::Spawn(p.t_type)),
        ],
        TutorialEvent::HoldSwap => seq![
            CueView::Sound(SoundCue::HoldSwap),
            say1(Phrase::LessonHoldSwap, true),
            CueView::Sound(SoundCue::Spawn(p.t_type)),
        ],
        TutorialEvent::HoldDenied => seq![CueView::Sound(SoundCue::HoldDenied), say1(Phrase::LessonHoldDenied, true)],
        TutorialEvent::RadarScan => seq![CueView::Sound(SoundCue::RadarSweep), say1(Phrase::ScanComplete, true)],
        TutorialEvent::ZoneEnter => seq![CueView::Sound(SoundCue::ZoneEnter), say1(Phrase::LessonZoneActive, true)],
        TutorialEvent::UseItem(item) => seq![CueView::Sound(SoundCue::ItemUse(item))] + if ts.stage == stage_before {
            seq![
                CueView::Sound(SoundCue::ItemAcquire),
                say1(Phrase::ItemLessonResult { first: ts.item_step == 1 }, true),
            ]
        } else {
            seq![]
        },
        TutorialEvent::LessonDrop { thud, cleared } => (if thud {
            seq![CueView::Sound(SoundCue::HardDrop)]
        } else {
            seq![]
        }) + if cleared > 0 {
            seq![CueView::Sound(SoundCue::Clear(cleared))]
        } else {
            seq![]
        },
        TutorialEvent::Graduate => seq![CueView::Sound(SoundCue::MenuSelect), say1(Phrase::MainMenuOpened, true)],
        TutorialEvent::Skip => seq![],
        TutorialEvent::Nothing => seq![],
    }) + if ts.stage != stage_before {
        seq![CueView::Sound(SoundCue::MenuSelect)]
    } else {
        seq![]
    }
}

/// What is heard after an action in the tutorial (see `lesson_cue_list`);
/// `ts` is the tutorial after the action.
pub fn lesson_cues(e: &TutorialEvent, a: InputAction, stage_before: usize, ts: &TutorialState) -> (cues: Vec<Cue>)
    requires
        lesson_names_columns(*e, stage_before) ==> columns_known(ts.game_state),
    ensures
        cue_views(cues@) == lesson_cue_list(*e, a, stage_before, *ts),
{
    let mut out: Vec<Cue> = Vec::new();
    let ghost v0 = cue_views(out@);
    assert(v0 =~= Seq::<CueView>::empty());
    let p = ts.game_state.current_piece;
    let toward_left = a == InputAction::Left;
    match e {
        TutorialEvent::Exit => {
            sound(&mut out, SoundCue::MenuSelect);
            say(&mut out, Phrase::TutorialExited, true);
        },
        TutorialEvent::Lateral { moved, reached_edge, column } => {
            if !*moved {
                if stage_before == 1 {
                    sound(&mut out, SoundCue::Aligned);
                }
            } else if stage_before == 1 {
                sound(&mut out, SoundCue::HorizontalMove(*column));
                if *reached_edge {
                    sound(&mut out, SoundCue::Aligned);
                    say(&mut out, Phrase::EdgeReached { left: toward_left }, true);
                } else {
                    say(&mut out, Phrase::MovedTo { left: toward_left, column: (*column as i64) + 1 }, true);
                }
            } else {
                sound(&mut out, SoundCue::HorizontalMove(*column));
                let left = p.left_column();
                say(&mut out, if toward_left { Phrase::MovedLeft(left) } else { Phrase::MovedRight(left) }, true);
            }
        },
        TutorialEvent::SoftDrop(moved) => {
            if *moved {
                sound(&mut out, SoundCue::SoftDrop(p.y));
                say(&mut out, Phrase::SoftDropRow((p.y as i64) + 1), true);
            }
        },
        TutorialEvent::Inspect => {
            let left = p.left_column();
            let right = p.right_column();
            let width = p.width();
            say(&mut out, Phrase::Inspected { left, right, width }, true);
        },
        TutorialEvent::Turn(turned) => {
            if *turned {
                let cw = a == InputAction::RotateRight;
                let left = p.left_column();
                let right = p.right_column();
                sound(&mut out, if cw { SoundCue::RotateCw(p.y) } else { SoundCue::RotateCcw(p.y) });
                say(&mut out, Phrase::LessonTurned { clockwise: cw, left, right }, true);
            }
        },
        TutorialEvent::HoldFirst => {
            sound(&mut out, SoundCue::Hold);
            say(&mut out, Phrase::LessonHoldFirst, true);
            sound(&mut out, SoundCue::Spawn(p.t_type));
        },
        TutorialEvent::HoldSwap => {
            sound(&mut out, SoundCue::HoldSwap);
            say(&mut out, Phrase::LessonHoldSwap, true);
            sound(&mut out, SoundCue::Spawn(p.t_type));
        },
        TutorialEvent::HoldDenied => {
            sound(&mut out, SoundCue::HoldDenied);
            say(&mut out, Phrase::LessonHoldDenied, true);
        },
        TutorialEvent::RadarScan => {
            sound(&mut out, SoundCue::RadarSweep);
            say(&mut out, Phrase::ScanComplete, true);
        },
        TutorialEvent::ZoneEnter => {
            sound(&mut out, SoundCue::ZoneEnter);
            say(&mut out, Phrase::LessonZoneActive, true);
        },
        TutorialEvent::UseItem(item) => {
            sound(&mut out, SoundCue::ItemUse(*item));
            if ts.stage == stage_before {
                sound(&mut out, SoundCue::ItemAcquire);
                say(&mut out, Phrase::ItemLessonResult { first: ts.item_step == 1 }, true);
            }
        },
        TutorialEvent::LessonDrop { thud, cleared } => {
            if *thud {
                sound(&mut out, SoundCue::HardDrop);
            }
            if *cleared > 0 {
                sound(&mut out, SoundCue::Clear(*cleared));
            }
        },
        TutorialEvent::Graduate => {
            sound(&mut out, SoundCue::MenuSelect);
            say(&mut out, Phrase::MainMenuOpened, true);
        },
        TutorialEvent::Skip => {},
        TutorialEvent::Nothing => {},
    }
    if ts.stage != stage_before {
        sound(&mut out, SoundCue::MenuSelect);
    }
    assert(cue_views(out@) =~= lesson_cue_list(*e, a, stage_before, *ts));
    out
}

} // verus!
