//! The scenes of the game and the moves between them.

use vstd::prelude::*;
use crate::ui::{button_shade, spec_shade, ButtonShade, GameOverButtonAction, Interaction,
    MenuButtonAction, PauseButtonAction};

verus! {

/// The scene that the game is in.
#[derive(Clone, Copy, Debug, PartialEq, Eq, Hash, Structural)]
pub enum GameState {
    MainMenu,
    InGame,
    Settings,
    GameOver,
    WinScreen,
    Paused,
    SecretScene,
}

impl Default for GameState {
    fn default() -> (state: GameState)
        ensures
            state == GameState::MainMenu,
    {
        GameState::MainMenu
    }
}

/// The groups that the rules of play fall into.
#[derive(Clone, Copy, Debug, PartialEq, Eq, Hash, Structural)]
pub enum GameMechanicsSet {
    Movement,
    EnemyBehavior,
    Collisions,
    Scoring,
}

#[derive(Clone, Copy, Debug, PartialEq, Eq, Structural)]
pub struct GameSettings {
    pub paused: bool,
}

impl Default for GameSettings {
    fn default() -> (settings: GameSettings)
        ensures
            settings == (GameSettings { paused: false }),
    {
        GameSettings { paused: false }
    }
}

/// What the game remembers of pausing.
#[derive(Clone, Copy, Debug, PartialEq, Eq, Structural)]
pub struct PauseState {
    /// Set while play is being left for the pause menu.
    pub transitioning_to_pause: bool,
    /// Set from the first pause on, until the main menu is entered again.
    pub was_paused: bool,
}

impl Default for PauseState {
    fn default() -> (state: PauseState)
        ensures
            state == (PauseState { transitioning_to_pause: false, was_paused: false }),
    {
        PauseState { transitioning_to_pause: false, was_paused: false }
    }
}

/// What follows from the pointer on a button: the shade the button takes,
/// the scene to enter, whether the program is to end, and whether what is
/// left of the game is to be cleared away first.
#[derive(Clone, Copy, Debug, PartialEq, Eq, Structural)]
pub struct ButtonResponse {
    pub shade: ButtonShade,
    pub next_state: Option<GameState>,
    pub quit: bool,
    pub clear_scene: bool,
}

impl ButtonResponse {
    /// A button that is not pressed changes its shade and nothing else.
    pub open spec fn idle(interaction: Interaction) -> ButtonResponse {
        ButtonResponse { shade: spec_shade(interaction), next_state: None, quit: false, clear_scene: false }
    }

    /// A pressed button that sends the game to `state`.
    pub open spec fn enter(state: GameState) -> ButtonResponse {
        ButtonResponse {
            shade: ButtonShade::Pressed,
            next_state: Some(state),
            quit: false,
            clear_scene: false,
        }
    }
}

/// The pause state and the scene to enter after the escape key was
/// pressed in the scene `current`: play is left for the pause menu, the
/// pause menu for play, and elsewhere the key does nothing.
pub open spec fn spec_toggle_pause(current: GameState, pause_state: PauseState) -> (PauseState, Option<GameState>) {
    match current {
        GameState::InGame => (
            PauseState { transitioning_to_pause: true, was_paused: true },
            Some(GameState::Paused),
        ),
        GameState::Paused => (
            PauseState { transitioning_to_pause: false, ..pause_state },
            Some(GameState::InGame),
        ),
        _ => (pause_state, None),
    }
}

/// The escape key during play and in the pause menu: see
/// `spec_toggle_pause`.  Without the key nothing changes.
pub fn toggle_pause(escape_pressed: bool, current: GameState, pause_state: &mut PauseState) -> (next: Option<GameState>)
    ensures
        escape_pressed ==> (*final(pause_state), next) == spec_toggle_pause(current, *old(pause_state)),
        !escape_pressed ==> *final(pause_state) == *old(pause_state) && next is None,
{
    if !escape_pressed {
        return None;
    }
    match current {
        GameState::InGame => {
            pause_state.transitioning_to_pause = true;
            pause_state.was_paused = true;
            Some(GameState::Paused)
        },
        GameState::Paused => {
            pause_state.transitioning_to_pause = false;
            Some(GameState::InGame)
        },
        _ => None,
    }
}

/// The pause state and the response to a pressed button of the pause
/// menu.  Resuming goes back to play and keeps in mind that there was a
/// pause.  Leaving for the main menu forgets it and clears the game away.
/// Quitting ends the program.
pub open spec fn spec_pause_pressed(action: PauseButtonAction, pause_state: PauseState) -> (PauseState, ButtonResponse) {
    match action {
        PauseButtonAction::Resume => (
            PauseState { transitioning_to_pause: false, ..pause_state },
            ButtonResponse::enter(GameState::InGame),
        ),
        PauseButtonAction::MainMenu => (
            PauseState { transitioning_to_pause: false, was_paused: false },
            ButtonResponse { clear_scene: true, ..ButtonResponse::enter(GameState::MainMenu) },
        ),
        PauseButtonAction::Quit => (
            pause_state,
            ButtonResponse {
                shade: ButtonShade::Pressed,
                next_state: None,
                quit: true,
                clear_scene: false,
            },
        ),
    }
}

/// The pointer on a button of the pause menu.
pub fn handle_pause_input(interaction: Interaction, action: PauseButtonAction, pause_state: &mut PauseState) -> (response: ButtonResponse)
    ensures
        interaction == Interaction::Pressed ==> (*final(pause_state), response) == spec_pause_pressed(
            action,
            *old(pause_state),
        ),
        interaction != Interaction::Pressed ==> *final(pause_state) == *old(pause_state) && response
            == ButtonResponse::idle(interaction),
{
    let shade = button_shade(interaction);
    let idle = ButtonResponse { shade, next_state: None, quit: false, clear_scene: false };
    match interaction {
        Interaction::Pressed => match action {
            PauseButtonAction::Resume => {
                pause_state.transitioning_to_pause = false;
                ButtonResponse { next_state: Some(GameState::InGame), ..idle }
            },
            PauseButtonAction::MainMenu => {
                pause_state.transitioning_to_pause = false;
                pause_state.was_paused = false;
                ButtonResponse { next_state: Some(GameState::MainMenu), clear_scene: true, ..idle }
            },
            PauseButtonAction::Quit => ButtonResponse { quit: true, ..idle },
        },
        _ => idle,
    }
}

/// The response to a pressed button of the main menu or the settings menu.
pub open spec fn spec_menu_pressed(action: MenuButtonAction) -> ButtonResponse {
    match action {
        MenuButtonAction::Quit => ButtonResponse {
            shade: ButtonShade::Pressed,
            next_state: None,
            quit: true,
            clear_scene: false,
        },
        MenuButtonAction::Play => ButtonResponse::enter(GameState::InGame),
        MenuButtonAction::Settings => ButtonResponse::enter(GameState::Settings),
        MenuButtonAction::Back => ButtonResponse::enter(GameState::MainMenu),
        MenuButtonAction::Secret => ButtonResponse::enter(GameState::SecretScene),
    }
}

/// The pointer on a button of the main menu or the settings menu.
pub fn handle_menu_buttons(interaction: Interaction, action: MenuButtonAction) -> (response: ButtonResponse)
    ensures
        response == if interaction == Interaction::Pressed {
            spec_menu_pressed(action)
        } else {
            ButtonResponse::idle(interaction)
        },
{
    let shade = button_shade(interaction);
    let idle = ButtonResponse { shade, next_state: None, quit: false, clear_scene: false };
    match interaction {
        Interaction::Pressed => match action {
            MenuButtonAction::Quit => ButtonResponse { quit: true, ..idle },
            MenuButtonAction::Play => ButtonResponse { next_state: Some(GameState::InGame), ..idle },
            MenuButtonAction::Settings => ButtonResponse { next_state: Some(GameState::Settings), ..idle },
            MenuButtonAction::Back => ButtonResponse { next_state: Some(GameState::MainMenu), ..idle },
            MenuButtonAction::Secret => ButtonResponse { next_state: Some(GameState::SecretScene), ..idle },
        },
        _ => idle,
    }
}

/// The response to a pressed button of the game-over screen: play again,
/// or clear the scores away and go to the main menu.
pub open spec fn spec_game_over_pressed(action: GameOverButtonAction) -> ButtonResponse {
    match action {
        GameOverButtonAction::Restart => ButtonResponse::enter(GameState::InGame),
        GameOverButtonAction::MainMenu => ButtonResponse {
            clear_scene: true,
            ..ButtonResponse::enter(GameState::MainMenu)
        },
    }
}

/// The pointer on a button of the game-over screen.
pub fn handle_game_over_input(interaction: Interaction, action: GameOverButtonAction) -> (response: ButtonResponse)
    ensures
        response == if interaction == Interaction::Pressed {
            spec_game_over_pressed(action)
        } else {
            ButtonResponse::idle(interaction)
        },
{
    let shade = button_shade(interaction);
    let idle = ButtonResponse { shade, next_state: None, quit: false, clear_scene: false };
    match interaction {
        Interaction::Pressed => match action {
            GameOverButtonAction::Restart => ButtonResponse { next_state: Some(GameState::InGame), ..idle },
            GameOverButtonAction::MainMenu => ButtonResponse {
                next_state: Some(GameState::MainMenu),
                clear_scene: true,
                ..idle
            },
        },
        _ => idle,
    }
}

/// The pointer on the button of the win screen: pressed, it leads to the
/// main menu.
pub fn handle_win_screen_input(interaction: Interaction) -> (next: Option<GameState>)
    ensures
        next == if interaction == Interaction::Pressed {
            Some(GameState::MainMenu)
        } else {
            None
        },
{
    match interaction {
        Interaction::Pressed => Some(GameState::MainMenu),
        _ => None,
    }
}

/// The escape key in the settings: it leads back to the main menu.
pub fn handle_settings(escape_pressed: bool) -> (next: Option<GameState>)
    ensures
        next == if escape_pressed {
            Some(GameState::MainMenu)
        } else {
            None
        },
{
    if escape_pressed {
        Some(GameState::MainMenu)
    } else {
        None
    }
}

/// Whether play goes on after a pause, so that nothing is set up anew.
pub fn run_if_resuming_from_pause(pause_state: &PauseState) -> (resuming: bool)
    ensures
        resuming == pause_state.was_paused,
{
    pause_state.was_paused
}

/// Whether the game is to be cleared away on leaving play for
/// `next_state`: not on the way into the pause menu.
pub open spec fn spec_cleanup_due(pause_state: PauseState, next_state: Option<GameState>) -> bool {
    !pause_state.transitioning_to_pause && next_state != Some(GameState::Paused)
}

/// Whether the game is to be cleared away on leaving play.
pub fn conditional_cleanup_game(pause_state: &PauseState, next_state: Option<GameState>) -> (due: bool)
    ensures
        due == spec_cleanup_due(*pause_state, next_state),
{
    if pause_state.transitioning_to_pause {
        return false;
    }
    match next_state {
        Some(GameState::Paused) => false,
        _ => true,
    }
}

} // verus!
