use galactic::options::Options;
use galactic::shortcut::{dispatch, KeyCode, ShortcutIntent, CONTROL_MASK};

#[test]
fn control_c_without_selection_passes_through() {
    assert_eq!(
        dispatch(KeyCode::LetterC, CONTROL_MASK, false),
        ShortcutIntent::Pass
    );
}

#[test]
fn control_c_with_selection_copies() {
    assert_eq!(
        dispatch(KeyCode::LetterC, CONTROL_MASK, true),
        ShortcutIntent::Copy
    );
}

#[test]
fn control_v_always_pastes() {
    assert_eq!(dispatch(KeyCode::LetterV, CONTROL_MASK, false), ShortcutIntent::Paste);
    assert_eq!(dispatch(KeyCode::LetterV, CONTROL_MASK, true), ShortcutIntent::Paste);
}

#[test]
fn scale_keys_map_to_their_intents() {
    assert_eq!(
        dispatch(KeyCode::Plus, CONTROL_MASK, false),
        ShortcutIntent::IncreaseFontScale
    );
    assert_eq!(
        dispatch(KeyCode::Equal, CONTROL_MASK, false),
        ShortcutIntent::IncreaseFontScale
    );
    assert_eq!(
        dispatch(KeyCode::Minus, CONTROL_MASK, false),
        ShortcutIntent::DecreaseFontScale
    );
    assert_eq!(
        dispatch(KeyCode::Underscore, CONTROL_MASK, false),
        ShortcutIntent::DecreaseFontScale
    );
    assert_eq!(
        dispatch(KeyCode::Digit0, CONTROL_MASK, false),
        ShortcutIntent::ResetFontScale
    );
}

#[test]
fn without_control_everything_passes_through() {
    assert_eq!(dispatch(KeyCode::LetterV, 0, true), ShortcutIntent::Pass);
    assert_eq!(dispatch(KeyCode::LetterC, 0, true), ShortcutIntent::Pass);
    assert_eq!(dispatch(KeyCode::Plus, 0, false), ShortcutIntent::Pass);
    assert_eq!(dispatch(KeyCode::Digit0, 0, false), ShortcutIntent::Pass);
    // a mask with other bits but not Control does not match
    assert_eq!(dispatch(KeyCode::LetterV, 1, true), ShortcutIntent::Pass);
}

#[test]
fn superset_modifier_mask_still_matches() {
    let control_and_shift = CONTROL_MASK | 1;
    assert_eq!(
        dispatch(KeyCode::LetterV, control_and_shift, false),
        ShortcutIntent::Paste
    );
    assert_eq!(
        dispatch(KeyCode::Digit0, control_and_shift, false),
        ShortcutIntent::ResetFontScale
    );
}

#[test]
fn unrecognized_key_passes_through() {
    assert_eq!(dispatch(KeyCode::Other, CONTROL_MASK, true), ShortcutIntent::Pass);
}

#[test]
fn options_bypass_policy() {
    let o = Options { default_config: true, config_path: None };
    assert!(!o.wants_file_config());
    let o = Options { default_config: false, config_path: Some("/tmp/conf".to_string()) };
    assert!(o.wants_file_config());
}
