//! Session lifecycle: `Idle → Spawning → Running → Exited`, with `Exited`
//! terminal. The controller decides; its surroundings perform: `spawn`
//! hands back the request for the process collaborator, `apply` the
//! settings for the render surface, and key events are answered with the
//! action to take.

use vstd::prelude::*;

use crate::config::Config;
use crate::shortcut::{dispatch, spec_dispatch, KeyCode, ShortcutIntent};
use crate::theme::Theme;

verus! {

/// Font-scale bounds, in hundredths of the nominal scale.
pub const FONT_SCALE_MIN: u32 = 10;

pub const FONT_SCALE_MAX: u32 = 1000;

pub const FONT_SCALE_DEFAULT: u32 = 100;

pub const FONT_SCALE_STEP: u32 = 10;

/// Soft floor the render surface enforces on the displayed size: a smaller
/// configured size is not rejected, only clamped at apply time.
pub const WINDOW_MIN_WIDTH: u32 = 600;

pub const WINDOW_MIN_HEIGHT: u32 = 400;

/// Lifecycle states of one session. No re-entrant transitions; `Exited` is
/// terminal.
#[derive(Debug, Clone, Copy, PartialEq, Eq, Structural)]
pub enum SessionState {
    Idle,
    Spawning,
    Running,
    Exited,
}

/// Why a session could not be spawned.
#[derive(Debug, Clone, Copy, PartialEq, Eq, Structural)]
pub enum SpawnError {
    /// The command sequence is empty; rejected before the process
    /// collaborator is invoked.
    EmptyCommand,
    /// The process collaborator failed.
    Backend,
}

/// The request handed to the process collaborator: the first element of the
/// configured command is the program, the remainder its arguments.
#[derive(Debug, Clone)]
pub struct SpawnRequest {
    pub program: String,
    pub args: Vec<String>,
}

/// What the session asks of its surroundings in answer to a key event.
#[derive(Debug, Clone, Copy, PartialEq, Eq, Structural)]
pub enum KeyResponse {
    /// Not consumed: the surface's default handling applies.
    Pass,
    /// Paste the clipboard, then clear the selection.
    Paste,
    /// Copy the selection, then clear it.
    Copy,
    /// The font scale changed to this value, in hundredths.
    FontScale(u32),
}

/// Everything the render surface is given on `apply`: a structured style
/// description, never stringified markup.
#[derive(Debug, Clone)]
pub struct RenderSettings {
    pub font: String,
    pub foreground: String,
    pub background: String,
    pub palette: Vec<String>,
    pub scroll_bar: bool,
    pub padding_x: u32,
    pub padding_y: u32,
    pub title: String,
    pub width: u32,
    pub height: u32,
    pub min_width: u32,
    pub min_height: u32,
}

/// Increase by one step, clamped at the maximum.
pub open spec fn spec_increase_scale(s: u32) -> u32 {
    if s + FONT_SCALE_STEP >= FONT_SCALE_MAX {
        FONT_SCALE_MAX
    } else {
        (s + FONT_SCALE_STEP) as u32
    }
}

/// Decrease by one step, clamped at the minimum.
pub open spec fn spec_decrease_scale(s: u32) -> u32 {
    if s <= FONT_SCALE_MIN + FONT_SCALE_STEP {
        FONT_SCALE_MIN
    } else {
        (s - FONT_SCALE_STEP) as u32
    }
}

/// Clamp an arbitrary requested scale into range.
pub open spec fn spec_clamp_scale(s: u32) -> u32 {
    if s < FONT_SCALE_MIN {
        FONT_SCALE_MIN
    } else if s > FONT_SCALE_MAX {
        FONT_SCALE_MAX
    } else {
        s
    }
}

/// The answer to a key event and the font scale after it.
pub open spec fn spec_handle_key(
    scale: u32,
    key: KeyCode,
    modifiers: u32,
    has_selection: bool,
) -> (KeyResponse, u32) {
    match spec_dispatch(key, modifiers, has_selection) {
        ShortcutIntent::Pass => (KeyResponse::Pass, scale),
        ShortcutIntent::Paste => (KeyResponse::Paste, scale),
        ShortcutIntent::Copy => (KeyResponse::Copy, scale),
        ShortcutIntent::IncreaseFontScale => (
            KeyResponse::FontScale(spec_increase_scale(scale)),
            spec_increase_scale(scale),
        ),
        ShortcutIntent::DecreaseFontScale => (
            KeyResponse::FontScale(spec_decrease_scale(scale)),
            spec_decrease_scale(scale),
        ),
        ShortcutIntent::ResetFontScale => (
            KeyResponse::FontScale(FONT_SCALE_DEFAULT),
            FONT_SCALE_DEFAULT,
        ),
    }
}

#[verifier::ext_equal]
pub struct SessionView {
    pub state: SessionState,
    pub font_scale: u32,
}

/// Controller of one session: it exclusively owns the lifecycle; no other
/// component spawns or signals the child.
#[derive(Debug)]
pub struct SessionController {
    state: SessionState,
    font_scale: u32,
}

impl View for SessionController {
    type V = SessionView;

    closed spec fn view(&self) -> SessionView {
        SessionView { state: self.state, font_scale: self.font_scale }
    }
}

fn clone_strings(v: &Vec<String>) -> (r: Vec<String>)
    ensures
        r.deep_view() == v.deep_view(),
{
    let mut out: Vec<String> = Vec::new();
    let mut i: usize = 0;
    while i < v.len()
        invariant
            0 <= i <= v@.len(),
            out@.len() == i,
            forall|j: int| 0 <= j < i ==> #[trigger] out@[j]@ == v@[j]@,
        decreases v@.len() - i,
    {
        out.push(v[i].clone());
        i = i + 1;
    }
    proof {
        assert(out.deep_view() =~= v.deep_view());
    }
    out
}

impl SessionController {
    /// The font scale never leaves its bounds.
    pub open spec fn wf(&self) -> bool {
        FONT_SCALE_MIN <= self@.font_scale <= FONT_SCALE_MAX
    }

    /// A fresh controller: idle, nominal font scale.
    pub fn new() -> (r: Self)
        ensures
            r@.state == SessionState::Idle,
            r@.font_scale == FONT_SCALE_DEFAULT,
            r.wf(),
    {
        SessionController { state: SessionState::Idle, font_scale: FONT_SCALE_DEFAULT }
    }

    pub fn state(&self) -> (s: SessionState)
        ensures
            s == self@.state,
    {
        self.state
    }

    pub fn font_scale(&self) -> (s: u32)
        ensures
            s == self@.font_scale,
    {
        self.font_scale
    }

    /// Starts the session: an empty command is rejected before the process
    /// collaborator is invoked and the state stays `Idle`; otherwise the
    /// state becomes `Spawning` and the spawn request is handed back.
    pub fn spawn(&mut self, config: &Config) -> (r: Result<SpawnRequest, SpawnError>)
        requires
            old(self)@.state == SessionState::Idle,
        ensures
            final(self)@.font_scale == old(self)@.font_scale,
            config@.general.command.len() == 0 ==> (r matches Err(SpawnError::EmptyCommand)
                && final(self)@ == old(self)@),
            config@.general.command.len() > 0 ==> (r matches Ok(req) && final(self)@.state
                == SessionState::Spawning && req.program@ == config@.general.command[0]
                && req.args.deep_view() == config@.general.command.skip(1)),
    {
        if config.general.command.len() == 0 {
            return Err(SpawnError::EmptyCommand);
        }
        let program = config.general.command[0].clone();
        let mut args: Vec<String> = Vec::new();
        let mut i: usize = 1;
        while i < config.general.command.len()
            invariant
                1 <= i <= config.general.command@.len(),
                args@.len() == i - 1,
                forall|j: int|
                    0 <= j < i - 1 ==> #[trigger] args@[j]@ == config.general.command@[j + 1]@,
            decreases config.general.command@.len() - i,
        {
            args.push(config.general.command[i].clone());
            i = i + 1;
        }
        proof {
            assert(args.deep_view() =~= config@.general.command.skip(1));
        }
        self.state = SessionState::Spawning;
        Ok(SpawnRequest { program, args })
    }

    /// Records the process collaborator's answer to the spawn request: on
    /// success the session runs; on failure it reports `Backend` and the
    /// state returns to `Idle`.
    pub fn spawn_finished(&mut self, ok: bool) -> (r: Result<(), SpawnError>)
        requires
            old(self)@.state == SessionState::Spawning,
        ensures
            final(self)@.font_scale == old(self)@.font_scale,
            ok ==> r is Ok && final(self)@.state == SessionState::Running,
            !ok ==> (r matches Err(SpawnError::Backend) && final(self)@.state
                == SessionState::Idle),
    {
        if ok {
            self.state = SessionState::Running;
            Ok(())
        } else {
            self.state = SessionState::Idle;
            Err(SpawnError::Backend)
        }
    }

    /// The settings to push to the render surface. Valid only once `spawn`
    /// has been issued; pure in the configuration and theme, so repeated
    /// application (hot reload) gives the same settings without respawning.
    /// The surface clamps the displayed size at the soft floor.
    pub fn apply(&self, config: &Config, theme: &Theme) -> (r: RenderSettings)
        requires
            self@.state == SessionState::Spawning || self@.state == SessionState::Running,
            theme.wf(),
        ensures
            r.font@ == config@.general.font,
            r.foreground@ == theme@.foreground,
            r.background@ == theme@.background,
            r.palette.deep_view() == theme@.palette,
            r.scroll_bar == config@.window.scroll_bar,
            r.padding_x == config@.window.padding.x,
            r.padding_y == config@.window.padding.y,
            r.title@ == config@.window.title,
            r.width == config@.window.size.width,
            r.height == config@.window.size.height,
            r.min_width == WINDOW_MIN_WIDTH,
            r.min_height == WINDOW_MIN_HEIGHT,
    {
        RenderSettings {
            font: config.general.font.clone(),
            foreground: theme.foreground.clone(),
            background: theme.background.clone(),
            palette: clone_strings(&theme.palette),
            scroll_bar: config.window.scroll_bar,
            padding_x: config.window.padding.x,
            padding_y: config.window.padding.y,
            title: config.window.title.clone(),
            width: config.window.size.width,
            height: config.window.size.height,
            min_width: WINDOW_MIN_WIDTH,
            min_height: WINDOW_MIN_HEIGHT,
        }
    }

    /// The child process exited, for any reason: the session ends and the
    /// owning surface must close. No retry, no restart.
    pub fn child_exited(&mut self)
        requires
            old(self)@.state == SessionState::Running,
        ensures
            final(self)@.state == SessionState::Exited,
            final(self)@.font_scale == old(self)@.font_scale,
    {
        self.state = SessionState::Exited;
    }

    /// Answers a key event while the session runs, updating the font scale
    /// when a scale shortcut fires.
    pub fn handle_key(&mut self, key: KeyCode, modifiers: u32, has_selection: bool) -> (r:
        KeyResponse)
        requires
            old(self)@.state == SessionState::Running,
            old(self).wf(),
        ensures
            final(self)@.state == old(self)@.state,
            final(self).wf(),
            (r, final(self)@.font_scale) == spec_handle_key(
                old(self)@.font_scale,
                key,
                modifiers,
                has_selection,
            ),
    {
        match dispatch(key, modifiers, has_selection) {
            ShortcutIntent::Pass => KeyResponse::Pass,
            ShortcutIntent::Paste => KeyResponse::Paste,
            ShortcutIntent::Copy => KeyResponse::Copy,
            ShortcutIntent::IncreaseFontScale => {
                if self.font_scale + FONT_SCALE_STEP >= FONT_SCALE_MAX {
                    self.font_scale = FONT_SCALE_MAX;
                } else {
                    self.font_scale = self.font_scale + FONT_SCALE_STEP;
                }
                KeyResponse::FontScale(self.font_scale)
            },
            ShortcutIntent::DecreaseFontScale => {
                if self.font_scale <= FONT_SCALE_MIN + FONT_SCALE_STEP {
                    self.font_scale = FONT_SCALE_MIN;
                } else {
                    self.font_scale = self.font_scale - FONT_SCALE_STEP;
                }
                KeyResponse::FontScale(self.font_scale)
            },
            ShortcutIntent::ResetFontScale => {
                self.font_scale = FONT_SCALE_DEFAULT;
                KeyResponse::FontScale(self.font_scale)
            },
        }
    }

    /// Sets the font scale outright, clamped into range.
    pub fn set_font_scale(&mut self, scale: u32)
        ensures
            final(self)@.state == old(self)@.state,
            final(self)@.font_scale == spec_clamp_scale(scale),
            final(self).wf(),
    {
        if scale < FONT_SCALE_MIN {
            self.font_scale = FONT_SCALE_MIN;
        } else if scale > FONT_SCALE_MAX {
            self.font_scale = FONT_SCALE_MAX;
        } else {
            self.font_scale = scale;
        }
    }
}

/// Law: font-scale updates are idempotent at the boundary. From anywhere
/// close to a bound one step reaches it, a further step stays there, and a
/// step never leaves the valid range.
pub proof fn lemma_font_scale_boundary(s: u32)
    requires
        FONT_SCALE_MIN <= s <= FONT_SCALE_MAX,
    ensures
        FONT_SCALE_MIN <= spec_increase_scale(s) <= FONT_SCALE_MAX,
        FONT_SCALE_MIN <= spec_decrease_scale(s) <= FONT_SCALE_MAX,
        s >= FONT_SCALE_MAX - FONT_SCALE_STEP ==> spec_increase_scale(s) == FONT_SCALE_MAX,
        spec_increase_scale(FONT_SCALE_MAX) == FONT_SCALE_MAX,
        s < FONT_SCALE_MAX ==> spec_increase_scale(s) > s,
        s <= FONT_SCALE_MIN + FONT_SCALE_STEP ==> spec_decrease_scale(s) == FONT_SCALE_MIN,
        spec_decrease_scale(FONT_SCALE_MIN) == FONT_SCALE_MIN,
        s > FONT_SCALE_MIN ==> spec_decrease_scale(s) < s,
{
}

/// Law: a reset yields exactly the nominal scale regardless of prior state.
pub proof fn lemma_reset_always_nominal(s: u32, modifiers: u32, has_selection: bool)
    requires
        crate::shortcut::control_held(modifiers),
    ensures
        spec_handle_key(s, KeyCode::Digit0, modifiers, has_selection).1 == FONT_SCALE_DEFAULT,
{
}

} // verus!
