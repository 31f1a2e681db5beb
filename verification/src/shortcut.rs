//! Keyboard shortcut dispatch: a pure function from a normalized key event
//! and the selection state to an intent; an unmatched event passes through
//! unconsumed.

use vstd::prelude::*;

verus! {

/// Bit of the modifier mask that stands for the Control key.
pub const CONTROL_MASK: u32 = 4;

/// Normalized key codes the dispatcher recognizes; everything else is
/// `Other`.
#[derive(Debug, Clone, Copy, PartialEq, Eq, Structural)]
pub enum KeyCode {
    LetterV,
    LetterC,
    Plus,
    Equal,
    Minus,
    Underscore,
    Digit0,
    Other,
}

/// What a key event asks of the session.
#[derive(Debug, Clone, Copy, PartialEq, Eq, Structural)]
pub enum ShortcutIntent {
    /// Not consumed: the surface's default handling applies.
    Pass,
    Paste,
    Copy,
    IncreaseFontScale,
    DecreaseFontScale,
    ResetFontScale,
}

/// Whether the modifier mask matches a binding that requires Control: the
/// mask must contain the whole required mask (an exact or superset match).
pub open spec fn control_held(modifiers: u32) -> bool {
    modifiers & CONTROL_MASK == CONTROL_MASK
}

pub open spec fn spec_dispatch(key: KeyCode, modifiers: u32, has_selection: bool) -> ShortcutIntent {
    if !control_held(modifiers) {
        ShortcutIntent::Pass
    } else {
        match key {
            KeyCode::LetterV => ShortcutIntent::Paste,
            KeyCode::LetterC => if has_selection {
                ShortcutIntent::Copy
            } else {
                ShortcutIntent::Pass
            },
            KeyCode::Plus => ShortcutIntent::IncreaseFontScale,
            KeyCode::Equal => ShortcutIntent::IncreaseFontScale,
            KeyCode::Minus => ShortcutIntent::DecreaseFontScale,
            KeyCode::Underscore => ShortcutIntent::DecreaseFontScale,
            KeyCode::Digit0 => ShortcutIntent::ResetFontScale,
            KeyCode::Other => ShortcutIntent::Pass,
        }
    }
}

/// Maps a key event to an intent. Control is required for every binding:
/// paste (`V`) always fires; copy (`C`) fires only over an active selection
/// and otherwise the event passes through; `+`/`=`, `-`/`_` and `0` adjust
/// the font scale. One intent per event; the first matching rule wins.
pub fn dispatch(key: KeyCode, modifiers: u32, has_selection: bool) -> (r: ShortcutIntent)
    ensures
        r == spec_dispatch(key, modifiers, has_selection),
{
    if modifiers & CONTROL_MASK != CONTROL_MASK {
        return ShortcutIntent::Pass;
    }
    match key {
        KeyCode::LetterV => ShortcutIntent::Paste,
        KeyCode::LetterC => if has_selection {
            ShortcutIntent::Copy
        } else {
            ShortcutIntent::Pass
        },
        KeyCode::Plus => ShortcutIntent::IncreaseFontScale,
        KeyCode::Equal => ShortcutIntent::IncreaseFontScale,
        KeyCode::Minus => ShortcutIntent::DecreaseFontScale,
        KeyCode::Underscore => ShortcutIntent::DecreaseFontScale,
        KeyCode::Digit0 => ShortcutIntent::ResetFontScale,
        KeyCode::Other => ShortcutIntent::Pass,
    }
}

/// Law: without an active selection, Control+C passes through unconsumed;
/// no copy fires and no selection is cleared.
pub proof fn lemma_copy_needs_selection(modifiers: u32)
    ensures
        spec_dispatch(KeyCode::LetterC, modifiers, false) == ShortcutIntent::Pass,
{
}

/// Law: a modifier mask that does not contain the required Control bit
/// passes every event through.
pub proof fn lemma_control_required(key: KeyCode, modifiers: u32, has_selection: bool)
    requires
        modifiers & CONTROL_MASK != CONTROL_MASK,
    ensures
        spec_dispatch(key, modifiers, has_selection) == ShortcutIntent::Pass,
{
}

} // verus!
