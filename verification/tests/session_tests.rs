use galactic::config::Config;
use galactic::session::{KeyResponse, SessionController, SessionState, SpawnError,
    FONT_SCALE_DEFAULT, FONT_SCALE_MAX, FONT_SCALE_MIN, WINDOW_MIN_HEIGHT, WINDOW_MIN_WIDTH};
use galactic::shortcut::{KeyCode, CONTROL_MASK};
use galactic::theme::Theme;

fn running_controller() -> SessionController {
    let mut c = SessionController::new();
    c.spawn(&Config::default()).unwrap();
    c.spawn_finished(true).unwrap();
    assert_eq!(c.state(), SessionState::Running);
    c
}

#[test]
fn new_controller_is_idle_at_nominal_scale() {
    let c = SessionController::new();
    assert_eq!(c.state(), SessionState::Idle);
    assert_eq!(c.font_scale(), FONT_SCALE_DEFAULT);
}

#[test]
fn spawn_with_empty_command_is_rejected_and_state_stays_idle() {
    let mut config = Config::default();
    config.general.command.clear();
    let mut c = SessionController::new();
    assert_eq!(c.spawn(&config).unwrap_err(), SpawnError::EmptyCommand);
    assert_eq!(c.state(), SessionState::Idle);
}

#[test]
fn spawn_splits_program_and_arguments() {
    let mut config = Config::default();
    config.general.command =
        vec!["/bin/zsh".to_string(), "-l".to_string(), "-i".to_string()];
    let mut c = SessionController::new();
    let req = c.spawn(&config).unwrap();
    assert_eq!(req.program, "/bin/zsh");
    assert_eq!(req.args, vec!["-l".to_string(), "-i".to_string()]);
    assert_eq!(c.state(), SessionState::Spawning);
}

#[test]
fn successful_spawn_reaches_running() {
    let mut c = SessionController::new();
    c.spawn(&Config::default()).unwrap();
    assert_eq!(c.state(), SessionState::Spawning);
    assert!(c.spawn_finished(true).is_ok());
    assert_eq!(c.state(), SessionState::Running);
}

#[test]
fn backend_failure_returns_to_idle() {
    let mut c = SessionController::new();
    c.spawn(&Config::default()).unwrap();
    assert_eq!(c.spawn_finished(false).unwrap_err(), SpawnError::Backend);
    assert_eq!(c.state(), SessionState::Idle);
}

#[test]
fn child_exit_ends_the_session() {
    let mut c = running_controller();
    c.child_exited();
    assert_eq!(c.state(), SessionState::Exited);
}

#[test]
fn apply_carries_config_and_theme_to_the_surface() {
    let config = Config::from_toml_str(
        "[general]\nfont = \"Hack 11\"\n[window]\ntitle = \"Shell\"\nscroll_bar = false\n\
         [window.size]\nwidth = 320\nheight = 200\n[window.padding]\nx = 2\ny = 4\n",
        None,
    )
    .unwrap();
    let theme = Theme::default();
    let c = running_controller();
    let s = c.apply(&config, &theme);
    assert_eq!(s.font, "Hack 11");
    assert_eq!(s.title, "Shell");
    assert!(!s.scroll_bar);
    assert_eq!(s.padding_x, 2);
    assert_eq!(s.padding_y, 4);
    assert_eq!(s.foreground, theme.foreground);
    assert_eq!(s.background, theme.background);
    assert_eq!(s.palette, theme.palette);
    // the configured size below the floor is carried, not rejected;
    // the surface clamps the displayed size at the floor
    assert_eq!(s.width, 320);
    assert_eq!(s.height, 200);
    assert_eq!(s.min_width, WINDOW_MIN_WIDTH);
    assert_eq!(s.min_height, WINDOW_MIN_HEIGHT);
}

#[test]
fn apply_is_idempotent() {
    let config = Config::default();
    let theme = Theme::default();
    let c = running_controller();
    let first = c.apply(&config, &theme);
    let second = c.apply(&config, &theme);
    assert_eq!(first.font, second.font);
    assert_eq!(first.palette, second.palette);
    assert_eq!(first.width, second.width);
}

#[test]
fn increase_converges_to_the_maximum_and_stays() {
    let mut c = running_controller();
    c.set_font_scale(995);
    assert_eq!(c.font_scale(), 995);
    let r = c.handle_key(KeyCode::Plus, CONTROL_MASK, false);
    assert_eq!(r, KeyResponse::FontScale(FONT_SCALE_MAX));
    assert_eq!(c.font_scale(), FONT_SCALE_MAX);
    let r = c.handle_key(KeyCode::Plus, CONTROL_MASK, false);
    assert_eq!(r, KeyResponse::FontScale(FONT_SCALE_MAX));
    assert_eq!(c.font_scale(), FONT_SCALE_MAX);
    let r = c.handle_key(KeyCode::Equal, CONTROL_MASK, false);
    assert_eq!(r, KeyResponse::FontScale(FONT_SCALE_MAX));
}

#[test]
fn decrease_converges_to_the_minimum_and_stays() {
    let mut c = running_controller();
    c.set_font_scale(15);
    let r = c.handle_key(KeyCode::Minus, CONTROL_MASK, false);
    assert_eq!(r, KeyResponse::FontScale(FONT_SCALE_MIN));
    let r = c.handle_key(KeyCode::Minus, CONTROL_MASK, false);
    assert_eq!(r, KeyResponse::FontScale(FONT_SCALE_MIN));
    let r = c.handle_key(KeyCode::Underscore, CONTROL_MASK, false);
    assert_eq!(r, KeyResponse::FontScale(FONT_SCALE_MIN));
    assert_eq!(c.font_scale(), FONT_SCALE_MIN);
}

#[test]
fn reset_always_yields_the_nominal_scale() {
    let mut c = running_controller();
    c.set_font_scale(FONT_SCALE_MAX);
    let r = c.handle_key(KeyCode::Digit0, CONTROL_MASK, false);
    assert_eq!(r, KeyResponse::FontScale(FONT_SCALE_DEFAULT));
    c.set_font_scale(FONT_SCALE_MIN);
    let r = c.handle_key(KeyCode::Digit0, CONTROL_MASK, false);
    assert_eq!(r, KeyResponse::FontScale(FONT_SCALE_DEFAULT));
    assert_eq!(c.font_scale(), FONT_SCALE_DEFAULT);
}

#[test]
fn ordinary_steps_move_by_one_tenth() {
    let mut c = running_controller();
    let r = c.handle_key(KeyCode::Plus, CONTROL_MASK, false);
    assert_eq!(r, KeyResponse::FontScale(110));
    let r = c.handle_key(KeyCode::Minus, CONTROL_MASK, false);
    assert_eq!(r, KeyResponse::FontScale(100));
}

#[test]
fn set_font_scale_clamps_into_range() {
    let mut c = SessionController::new();
    c.set_font_scale(0);
    assert_eq!(c.font_scale(), FONT_SCALE_MIN);
    c.set_font_scale(5000);
    assert_eq!(c.font_scale(), FONT_SCALE_MAX);
    c.set_font_scale(250);
    assert_eq!(c.font_scale(), 250);
}

#[test]
fn copy_without_selection_passes_through_and_keeps_scale() {
    let mut c = running_controller();
    let before = c.font_scale();
    let r = c.handle_key(KeyCode::LetterC, CONTROL_MASK, false);
    assert_eq!(r, KeyResponse::Pass);
    assert_eq!(c.font_scale(), before);
    assert_eq!(c.state(), SessionState::Running);
}

#[test]
fn copy_with_selection_and_paste_are_consumed() {
    let mut c = running_controller();
    assert_eq!(c.handle_key(KeyCode::LetterC, CONTROL_MASK, true), KeyResponse::Copy);
    assert_eq!(c.handle_key(KeyCode::LetterV, CONTROL_MASK, false), KeyResponse::Paste);
    assert_eq!(c.handle_key(KeyCode::LetterV, CONTROL_MASK, true), KeyResponse::Paste);
}

#[test]
fn events_without_control_pass_through() {
    let mut c = running_controller();
    assert_eq!(c.handle_key(KeyCode::LetterV, 0, true), KeyResponse::Pass);
    assert_eq!(c.handle_key(KeyCode::Plus, 0, false), KeyResponse::Pass);
    assert_eq!(c.font_scale(), FONT_SCALE_DEFAULT);
}
