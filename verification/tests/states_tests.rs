use arena_core::cube::{rotate_cube, SpinningCube};
use arena_core::states::{
    conditional_cleanup_game, handle_game_over_input, handle_menu_buttons, handle_pause_input,
    handle_settings, handle_win_screen_input, run_if_resuming_from_pause, toggle_pause,
    ButtonResponse, GameMechanicsSet, GameSettings, GameState, PauseState,
};
use arena_core::ui::{
    button_shade, BoostIndicator, BoostText, ButtonShade, FinalScoreText, GameHud, GameOverButton,
    GameOverButtonAction, GameOverScreen, Interaction, MainMenu, MenuButton, MenuButtonAction,
    PauseButton, PauseButtonAction, PauseMenu, RestartButton, ScoreText, SettingsMenu,
    WinScreenMarker,
};

fn pressed(next_state: Option<GameState>, quit: bool, clear_scene: bool) -> ButtonResponse {
    ButtonResponse { shade: ButtonShade::Pressed, next_state, quit, clear_scene }
}

fn idle(shade: ButtonShade) -> ButtonResponse {
    ButtonResponse { shade, next_state: None, quit: false, clear_scene: false }
}

#[test]
fn game_starts_in_the_main_menu() {
    assert_eq!(GameState::default(), GameState::MainMenu);
    assert_eq!(GameSettings::default(), GameSettings { paused: false });
    assert_eq!(
        PauseState::default(),
        PauseState { transitioning_to_pause: false, was_paused: false }
    );
    assert_ne!(GameMechanicsSet::Movement, GameMechanicsSet::Scoring);
    assert_ne!(GameMechanicsSet::EnemyBehavior, GameMechanicsSet::Collisions);
}

#[test]
fn screen_parts_are_plain_tags() {
    assert_eq!(ScoreText, ScoreText);
    assert_eq!(GameHud, GameHud);
    assert_eq!(BoostIndicator, BoostIndicator);
    assert_eq!(BoostText, BoostText);
    assert_eq!(GameOverScreen, GameOverScreen);
    assert_eq!(FinalScoreText, FinalScoreText);
    assert_eq!(PauseMenu, PauseMenu);
    assert_eq!(MainMenu, MainMenu);
    assert_eq!(SettingsMenu, SettingsMenu);
    assert_eq!(WinScreenMarker, WinScreenMarker);
    assert_eq!(RestartButton, RestartButton);
    assert_eq!(GameOverButton { action: GameOverButtonAction::Restart }.action, GameOverButtonAction::Restart);
    assert_eq!(PauseButton { action: PauseButtonAction::Quit }.action, PauseButtonAction::Quit);
    assert_eq!(MenuButton { action: MenuButtonAction::Secret }.action, MenuButtonAction::Secret);
}

#[test]
fn button_takes_the_shade_of_the_pointer() {
    assert_eq!(button_shade(Interaction::Pressed), ButtonShade::Pressed);
    assert_eq!(button_shade(Interaction::Hovered), ButtonShade::Hovered);
    assert_eq!(button_shade(Interaction::Idle), ButtonShade::Normal);
}

#[test]
fn escape_pauses_the_game() {
    let mut pause = PauseState::default();
    assert_eq!(toggle_pause(true, GameState::InGame, &mut pause), Some(GameState::Paused));
    assert_eq!(pause, PauseState { transitioning_to_pause: true, was_paused: true });
}

#[test]
fn escape_resumes_the_game() {
    let mut pause = PauseState { transitioning_to_pause: true, was_paused: true };
    assert_eq!(toggle_pause(true, GameState::Paused, &mut pause), Some(GameState::InGame));
    assert_eq!(pause, PauseState { transitioning_to_pause: false, was_paused: true });
}

#[test]
fn escape_does_nothing_elsewhere() {
    let others = [
        GameState::MainMenu,
        GameState::Settings,
        GameState::GameOver,
        GameState::WinScreen,
        GameState::SecretScene,
    ];
    for state in others {
        let mut pause = PauseState { transitioning_to_pause: true, was_paused: false };
        assert_eq!(toggle_pause(true, state, &mut pause), None);
        assert_eq!(pause, PauseState { transitioning_to_pause: true, was_paused: false });
    }
}

#[test]
fn no_key_no_pause() {
    let mut pause = PauseState::default();
    assert_eq!(toggle_pause(false, GameState::InGame, &mut pause), None);
    assert_eq!(toggle_pause(false, GameState::Paused, &mut pause), None);
    assert_eq!(pause, PauseState::default());
}

#[test]
fn pause_menu_resumes() {
    let mut pause = PauseState { transitioning_to_pause: true, was_paused: true };
    let response = handle_pause_input(Interaction::Pressed, PauseButtonAction::Resume, &mut pause);
    assert_eq!(response, pressed(Some(GameState::InGame), false, false));
    assert_eq!(pause, PauseState { transitioning_to_pause: false, was_paused: true });
}

#[test]
fn pause_menu_leaves_for_the_main_menu() {
    let mut pause = PauseState { transitioning_to_pause: true, was_paused: true };
    let response = handle_pause_input(Interaction::Pressed, PauseButtonAction::MainMenu, &mut pause);
    assert_eq!(response, pressed(Some(GameState::MainMenu), false, true));
    assert_eq!(pause, PauseState::default());
}

#[test]
fn pause_menu_quits() {
    let mut pause = PauseState { transitioning_to_pause: true, was_paused: true };
    let response = handle_pause_input(Interaction::Pressed, PauseButtonAction::Quit, &mut pause);
    assert_eq!(response, pressed(None, true, false));
    assert_eq!(pause, PauseState { transitioning_to_pause: true, was_paused: true });
}

#[test]
fn pause_menu_button_that_is_not_pressed_only_changes_shade() {
    let mut pause = PauseState { transitioning_to_pause: true, was_paused: true };
    assert_eq!(
        handle_pause_input(Interaction::Hovered, PauseButtonAction::MainMenu, &mut pause),
        idle(ButtonShade::Hovered)
    );
    assert_eq!(
        handle_pause_input(Interaction::Idle, PauseButtonAction::Quit, &mut pause),
        idle(ButtonShade::Normal)
    );
    assert_eq!(pause, PauseState { transitioning_to_pause: true, was_paused: true });
}

#[test]
fn menu_buttons_lead_to_their_scenes() {
    assert_eq!(
        handle_menu_buttons(Interaction::Pressed, MenuButtonAction::Play),
        pressed(Some(GameState::InGame), false, false)
    );
    assert_eq!(
        handle_menu_buttons(Interaction::Pressed, MenuButtonAction::Settings),
        pressed(Some(GameState::Settings), false, false)
    );
    assert_eq!(
        handle_menu_buttons(Interaction::Pressed, MenuButtonAction::Back),
        pressed(Some(GameState::MainMenu), false, false)
    );
    assert_eq!(
        handle_menu_buttons(Interaction::Pressed, MenuButtonAction::Secret),
        pressed(Some(GameState::SecretScene), false, false)
    );
    assert_eq!(
        handle_menu_buttons(Interaction::Pressed, MenuButtonAction::Quit),
        pressed(None, true, false)
    );
}

#[test]
fn menu_button_that_is_not_pressed_only_changes_shade() {
    assert_eq!(
        handle_menu_buttons(Interaction::Hovered, MenuButtonAction::Play),
        idle(ButtonShade::Hovered)
    );
    assert_eq!(handle_menu_buttons(Interaction::Idle, MenuButtonAction::Quit), idle(ButtonShade::Normal));
}

#[test]
fn game_over_buttons_restart_or_leave() {
    assert_eq!(
        handle_game_over_input(Interaction::Pressed, GameOverButtonAction::Restart),
        pressed(Some(GameState::InGame), false, false)
    );
    assert_eq!(
        handle_game_over_input(Interaction::Pressed, GameOverButtonAction::MainMenu),
        pressed(Some(GameState::MainMenu), false, true)
    );
    assert_eq!(
        handle_game_over_input(Interaction::Hovered, GameOverButtonAction::MainMenu),
        idle(ButtonShade::Hovered)
    );
    assert_eq!(
        handle_game_over_input(Interaction::Idle, GameOverButtonAction::Restart),
        idle(ButtonShade::Normal)
    );
}

#[test]
fn win_screen_button_leads_to_the_main_menu() {
    assert_eq!(handle_win_screen_input(Interaction::Pressed), Some(GameState::MainMenu));
    assert_eq!(handle_win_screen_input(Interaction::Hovered), None);
    assert_eq!(handle_win_screen_input(Interaction::Idle), None);
}

#[test]
fn escape_leaves_the_settings() {
    assert_eq!(handle_settings(true), Some(GameState::MainMenu));
    assert_eq!(handle_settings(false), None);
}

#[test]
fn resuming_is_known_by_the_pause_state() {
    assert!(!run_if_resuming_from_pause(&PauseState::default()));
    assert!(run_if_resuming_from_pause(&PauseState { transitioning_to_pause: false, was_paused: true }));
}

#[test]
fn game_is_cleared_away_unless_pausing() {
    let calm = PauseState::default();
    let pausing = PauseState { transitioning_to_pause: true, was_paused: true };
    assert!(conditional_cleanup_game(&calm, None));
    assert!(conditional_cleanup_game(&calm, Some(GameState::MainMenu)));
    assert!(conditional_cleanup_game(&calm, Some(GameState::GameOver)));
    assert!(conditional_cleanup_game(&calm, Some(GameState::WinScreen)));
    assert!(!conditional_cleanup_game(&calm, Some(GameState::Paused)));
    assert!(!conditional_cleanup_game(&pausing, Some(GameState::Paused)));
    assert!(!conditional_cleanup_game(&pausing, Some(GameState::MainMenu)));
    assert!(!conditional_cleanup_game(&pausing, None));
}

#[test]
fn cube_turns_by_speed_times_time() {
    let cube = SpinningCube::default();
    assert_eq!(cube, SpinningCube { rotation_speed_x: 500, rotation_speed_y: 1_000 });
    assert_eq!(rotate_cube(&cube, 16_666), (16_666_000, 8_333_000));
    assert_eq!(rotate_cube(&cube, 0), (0, 0));
    let fast = SpinningCube { rotation_speed_x: i32::MIN, rotation_speed_y: i32::MAX };
    assert_eq!(
        rotate_cube(&fast, u32::MAX),
        (i32::MAX as i64 * u32::MAX as i64, i32::MIN as i64 * u32::MAX as i64)
    );
}
