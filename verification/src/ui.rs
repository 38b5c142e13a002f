//! The parts of the screens, by name, and what their buttons ask for.

use vstd::prelude::*;
use crate::movement::FALL_THRESHOLD;
use crate::score::{is_ranking, rank_scores, DuckScore};

verus! {

/// Tags the text that lists the scores.
#[derive(Clone, Copy, Debug, PartialEq, Eq, Structural)]
pub struct ScoreText;

/// Tags the root of the display shown during play.
#[derive(Clone, Copy, Debug, PartialEq, Eq, Structural)]
pub struct GameHud;

/// Tags the bar whose width shows the boost energy.
#[derive(Clone, Copy, Debug, PartialEq, Eq, Structural)]
pub struct BoostIndicator;

/// Tags the label beside the boost bar.
#[derive(Clone, Copy, Debug, PartialEq, Eq, Structural)]
pub struct BoostText;

/// Tags the root of the screen shown when the game is lost.
#[derive(Clone, Copy, Debug, PartialEq, Eq, Structural)]
pub struct GameOverScreen;

/// Tags the text that shows the player's last score.
#[derive(Clone, Copy, Debug, PartialEq, Eq, Structural)]
pub struct FinalScoreText;

/// Tags the root of the pause menu.
#[derive(Clone, Copy, Debug, PartialEq, Eq, Structural)]
pub struct PauseMenu;

/// Tags the root of the main menu.
#[derive(Clone, Copy, Debug, PartialEq, Eq, Structural)]
pub struct MainMenu;

/// Tags the root of the settings menu.
#[derive(Clone, Copy, Debug, PartialEq, Eq, Structural)]
pub struct SettingsMenu;

/// Tags the root of the screen shown when the game is won.
#[derive(Clone, Copy, Debug, PartialEq, Eq, Structural)]
pub struct WinScreenMarker;

/// Tags the button on the win screen.
#[derive(Clone, Copy, Debug, PartialEq, Eq, Structural)]
pub struct RestartButton;

#[derive(Clone, Copy, Debug, PartialEq, Eq, Structural)]
pub enum GameOverButtonAction {
    Restart,
    MainMenu,
}

#[derive(Clone, Copy, Debug, PartialEq, Eq, Structural)]
pub enum PauseButtonAction {
    Resume,
    MainMenu,
    Quit,
}

#[derive(Clone, Copy, Debug, PartialEq, Eq, Structural)]
pub enum MenuButtonAction {
    Play,
    Settings,
    Quit,
    Back,
    Secret,
}

/// A button on the game-over screen.
#[derive(Clone, Copy, Debug, PartialEq, Eq, Structural)]
pub struct GameOverButton {
    pub action: GameOverButtonAction,
}

/// A button in the pause menu.
#[derive(Clone, Copy, Debug, PartialEq, Eq, Structural)]
pub struct PauseButton {
    pub action: PauseButtonAction,
}

/// A button in the main menu or the settings menu.
#[derive(Clone, Copy, Debug, PartialEq, Eq, Structural)]
pub struct MenuButton {
    pub action: MenuButtonAction,
}

/// What the pointer does to a button.
#[derive(Clone, Copy, Debug, PartialEq, Eq, Structural)]
pub enum Interaction {
    Pressed,
    Hovered,
    Idle,
}

/// The shade that a button shows.
#[derive(Clone, Copy, Debug, PartialEq, Eq, Structural)]
pub enum ButtonShade {
    Normal,
    Hovered,
    Pressed,
}

/// The shade of a button under `interaction`.
pub open spec fn spec_shade(interaction: Interaction) -> ButtonShade {
    match interaction {
        Interaction::Pressed => ButtonShade::Pressed,
        Interaction::Hovered => ButtonShade::Hovered,
        Interaction::Idle => ButtonShade::Normal,
    }
}

/// The shade of a button under `interaction`.
pub fn button_shade(interaction: Interaction) -> (shade: ButtonShade)
    ensures
        shade == spec_shade(interaction),
{
    match interaction {
        Interaction::Pressed => ButtonShade::Pressed,
        Interaction::Hovered => ButtonShade::Hovered,
        Interaction::Idle => ButtonShade::Normal,
    }
}

/// The order in which the scores are listed above the game: ranked, and
/// without the actors that are at or below the fall threshold.  Each entry
/// pairs a score with the height of its actor; entry `i` of the result is
/// the index in `entries` of the score on line `i`.
pub fn update_score_text(entries: &Vec<(DuckScore, i32)>) -> (order: Vec<usize>)
    ensures
        is_ranking(
            Seq::new(entries.len() as nat, |k: int| entries[k].0.value),
            Seq::new(entries.len() as nat, |k: int| entries[k].1 > FALL_THRESHOLD),
            order@,
        ),
{
    let mut values: Vec<i32> = Vec::new();
    let mut visible: Vec<bool> = Vec::new();
    let mut i: usize = 0;
    while i < entries.len()
        invariant
            i <= entries.len(),
            values.len() == i,
            visible.len() == i,
            forall|k: int| 0 <= k < i ==> #[trigger] values[k] == entries[k].0.value,
            forall|k: int| 0 <= k < i ==> #[trigger] visible[k] == (entries[k].1 > FALL_THRESHOLD),
        decreases entries.len() - i,
    {
        values.push(entries[i].0.value);
        visible.push(entries[i].1 > FALL_THRESHOLD);
        i += 1;
    }
    assert(values@ =~= Seq::new(entries.len() as nat, |k: int| entries[k].0.value));
    assert(visible@ =~= Seq::new(entries.len() as nat, |k: int| entries[k].1 > FALL_THRESHOLD));
    rank_scores(&values, &visible)
}

} // verus!
