//! Configuration resolution: a document is checked against a strict schema
//! and every omitted field is filled from its default, each substructure
//! supplying the defaults for its own fields.

use vstd::prelude::*;

use crate::doc::{
    classify, distinct_keys, entries_model, find_value, lemma_entries_model_dom, parse_value,
    spec_text_list, text_list_values, toml_doc_of, toml_text_of, value_model, value_of,
    write_value, DocView, ValueKind,
};

verus! {

broadcast use vstd::string::group_string_axioms;

/// Why a configuration document could not be resolved.
#[derive(Debug, Clone, Copy, PartialEq, Eq, Structural)]
pub enum ConfigError {
    /// The file could not be read.
    Io,
    /// The document is malformed, holds an unknown key, or a value of the
    /// wrong type.
    Deserialize,
}

/// Resolved configuration.
#[derive(Debug, Clone)]
pub struct Config {
    pub general: GeneralConfig,
    pub window: WindowConfig,
}

/// The `general` section: what to run and how to draw text.
#[derive(Debug, Clone)]
pub struct GeneralConfig {
    /// Program and arguments, in order.
    pub command: Vec<String>,
    /// Font descriptor.
    pub font: String,
    /// Theme name; `None` means the built-in default theme.
    pub theme: Option<String>,
}

/// The `window` section.
#[derive(Debug, Clone)]
pub struct WindowConfig {
    pub title: String,
    pub scroll_bar: bool,
    pub size: WindowSizeConfig,
    pub padding: WindowPaddingConfig,
}

/// Requested window size in pixels.
#[derive(Debug, Clone)]
pub struct WindowSizeConfig {
    pub width: u32,
    pub height: u32,
}

/// Terminal padding in pixels: `x` horizontal, `y` vertical.
#[derive(Debug, Clone)]
pub struct WindowPaddingConfig {
    pub x: u32,
    pub y: u32,
}

#[verifier::ext_equal]
pub struct ConfigView {
    pub general: GeneralConfigView,
    pub window: WindowConfigView,
}

#[verifier::ext_equal]
pub struct GeneralConfigView {
    pub command: Seq<Seq<char>>,
    pub font: Seq<char>,
    pub theme: Option<Seq<char>>,
}

#[verifier::ext_equal]
pub struct WindowConfigView {
    pub title: Seq<char>,
    pub scroll_bar: bool,
    pub size: WindowSizeConfigView,
    pub padding: WindowPaddingConfigView,
}

#[verifier::ext_equal]
pub struct WindowSizeConfigView {
    pub width: u32,
    pub height: u32,
}

#[verifier::ext_equal]
pub struct WindowPaddingConfigView {
    pub x: u32,
    pub y: u32,
}

impl View for Config {
    type V = ConfigView;

    open spec fn view(&self) -> ConfigView {
        ConfigView { general: self.general@, window: self.window@ }
    }
}

impl View for GeneralConfig {
    type V = GeneralConfigView;

    open spec fn view(&self) -> GeneralConfigView {
        GeneralConfigView {
            command: self.command.deep_view(),
            font: self.font@,
            theme: self.theme.deep_view(),
        }
    }
}

impl View for WindowConfig {
    type V = WindowConfigView;

    open spec fn view(&self) -> WindowConfigView {
        WindowConfigView {
            title: self.title@,
            scroll_bar: self.scroll_bar,
            size: self.size@,
            padding: self.padding@,
        }
    }
}

impl View for WindowSizeConfig {
    type V = WindowSizeConfigView;

    open spec fn view(&self) -> WindowSizeConfigView {
        WindowSizeConfigView { width: self.width, height: self.height }
    }
}

impl View for WindowPaddingConfig {
    type V = WindowPaddingConfigView;

    open spec fn view(&self) -> WindowPaddingConfigView {
        WindowPaddingConfigView { x: self.x, y: self.y }
    }
}

// ------------------------------------------------------------------
// Defaults. Every field has a total default, so the empty document
// resolves to `Config::default()`.
// ------------------------------------------------------------------

/// The default command: the user's shell when one is supplied, falling
/// back to a hardcoded path.
pub open spec fn default_command_view(shell: Option<Seq<char>>) -> Seq<Seq<char>> {
    match shell {
        Some(s) => seq![s],
        None => seq!["/usr/bin/bash"@],
    }
}

pub open spec fn default_font_view() -> Seq<char> {
    "Monospace 12"@
}

pub open spec fn default_title_view() -> Seq<char> {
    "Galactic"@
}

pub open spec fn spec_default_general(shell: Option<Seq<char>>) -> GeneralConfigView {
    GeneralConfigView {
        command: default_command_view(shell),
        font: default_font_view(),
        theme: None,
    }
}

pub open spec fn spec_default_size() -> WindowSizeConfigView {
    WindowSizeConfigView { width: 1200, height: 800 }
}

pub open spec fn spec_default_padding() -> WindowPaddingConfigView {
    WindowPaddingConfigView { x: 8, y: 8 }
}

pub open spec fn spec_default_window() -> WindowConfigView {
    WindowConfigView {
        title: default_title_view(),
        scroll_bar: true,
        size: spec_default_size(),
        padding: spec_default_padding(),
    }
}

pub open spec fn spec_default_config(shell: Option<Seq<char>>) -> ConfigView {
    ConfigView { general: spec_default_general(shell), window: spec_default_window() }
}

impl GeneralConfig {
    /// Default command: a single-element sequence holding the user's shell,
    /// falling back to a hardcoded path when no shell is supplied. The
    /// ambient shell is read outside and handed in.
    pub fn default_command(shell: Option<&str>) -> (r: Vec<String>)
        ensures
            r.deep_view() == default_command_view(shell.deep_view()),
    {
        let mut v: Vec<String> = Vec::new();
        match shell {
            Some(s) => v.push(s.to_owned()),
            None => v.push("/usr/bin/bash".to_owned()),
        }
        proof {
            assert(v.deep_view() =~= default_command_view(shell.deep_view()));
        }
        v
    }

    /// The fully-defaulted section for a given ambient shell.
    pub fn defaults(shell: Option<&str>) -> (r: Self)
        ensures
            r@ == spec_default_general(shell.deep_view()),
    {
        GeneralConfig {
            command: Self::default_command(shell),
            font: Self::default_font(),
            theme: Self::default_theme(),
        }
    }

    pub fn default_font() -> (r: String)
        ensures
            r@ == default_font_view(),
    {
        "Monospace 12".to_owned()
    }

    pub fn default_theme() -> (r: Option<String>)
        ensures
            r.deep_view() == None::<Seq<char>>,
    {
        None
    }
}

impl Default for GeneralConfig {
    fn default() -> (r: Self)
        ensures
            r@ == spec_default_general(None),
    {
        Self::defaults(None)
    }
}

impl WindowConfig {
    pub fn default_title() -> (r: String)
        ensures
            r@ == default_title_view(),
    {
        "Galactic".to_owned()
    }

    pub fn default_scroll_bar() -> (r: bool)
        ensures
            r == true,
    {
        true
    }

    pub fn default_size() -> (r: WindowSizeConfig)
        ensures
            r@ == spec_default_size(),
    {
        WindowSizeConfig::default()
    }

    pub fn default_padding() -> (r: WindowPaddingConfig)
        ensures
            r@ == spec_default_padding(),
    {
        WindowPaddingConfig::default()
    }
}

impl Default for WindowConfig {
    fn default() -> (r: Self)
        ensures
            r@ == spec_default_window(),
    {
        WindowConfig {
            title: Self::default_title(),
            scroll_bar: Self::default_scroll_bar(),
            size: Self::default_size(),
            padding: Self::default_padding(),
        }
    }
}

impl WindowSizeConfig {
    pub fn default_width() -> (r: u32)
        ensures
            r == 1200,
    {
        1200
    }

    pub fn default_height() -> (r: u32)
        ensures
            r == 800,
    {
        800
    }
}

impl Default for WindowSizeConfig {
    fn default() -> (r: Self)
        ensures
            r@ == spec_default_size(),
    {
        WindowSizeConfig { width: Self::default_width(), height: Self::default_height() }
    }
}

impl WindowPaddingConfig {
    pub fn default_x() -> (r: u32)
        ensures
            r == 8,
    {
        8
    }

    pub fn default_y() -> (r: u32)
        ensures
            r == 8,
    {
        8
    }
}

impl Default for WindowPaddingConfig {
    fn default() -> (r: Self)
        ensures
            r@ == spec_default_padding(),
    {
        WindowPaddingConfig { x: Self::default_x(), y: Self::default_y() }
    }
}

impl Config {
    pub fn default_general(shell: Option<&str>) -> (r: GeneralConfig)
        ensures
            r@ == spec_default_general(shell.deep_view()),
    {
        GeneralConfig::defaults(shell)
    }

    /// The fully-defaulted configuration for a given ambient shell; no I/O.
    pub fn default_with_shell(shell: Option<&str>) -> (r: Config)
        ensures
            r@ == spec_default_config(shell.deep_view()),
    {
        Config { general: Self::default_general(shell), window: Self::default_window() }
    }

    pub fn default_window() -> (r: WindowConfig)
        ensures
            r@ == spec_default_window(),
    {
        WindowConfig::default()
    }
}

impl Default for Config {
    fn default() -> (r: Self)
        ensures
            r@ == spec_default_config(None),
    {
        Self::default_with_shell(None)
    }
}

// ------------------------------------------------------------------
// What resolution means, over the document model.
// ------------------------------------------------------------------

pub open spec fn config_keys() -> Set<Seq<char>> {
    set!["general"@, "window"@]
}

pub open spec fn general_keys() -> Set<Seq<char>> {
    set!["command"@, "font"@, "theme"@]
}

pub open spec fn window_keys() -> Set<Seq<char>> {
    set!["title"@, "scroll_bar"@, "size"@, "padding"@]
}

pub open spec fn size_keys() -> Set<Seq<char>> {
    set!["width"@, "height"@]
}

pub open spec fn padding_keys() -> Set<Seq<char>> {
    set!["x"@, "y"@]
}

/// A text field: its default when omitted, its text when present as a
/// string, no value otherwise.
pub open spec fn field_text(m: Map<Seq<char>, DocView>, key: Seq<char>, default: Seq<char>) -> Option<
    Seq<char>,
> {
    if !m.contains_key(key) {
        Some(default)
    } else {
        match m[key] {
            DocView::Text(s) => Some(s),
            _ => None,
        }
    }
}

/// An unsigned integer field: its default when omitted, its value when
/// present as an integer in range, no value otherwise.
pub open spec fn field_u32(m: Map<Seq<char>, DocView>, key: Seq<char>, default: u32) -> Option<u32> {
    if !m.contains_key(key) {
        Some(default)
    } else {
        match m[key] {
            DocView::Int(i) => if 0 <= i <= u32::MAX {
                Some(i as u32)
            } else {
                None
            },
            _ => None,
        }
    }
}

/// A boolean field.
pub open spec fn field_bool(m: Map<Seq<char>, DocView>, key: Seq<char>, default: bool) -> Option<
    bool,
> {
    if !m.contains_key(key) {
        Some(default)
    } else {
        match m[key] {
            DocView::Flag(b) => Some(b),
            _ => None,
        }
    }
}

/// The command field accepts a single string or a list of strings.
pub open spec fn spec_command_value(d: DocView) -> Option<Seq<Seq<char>>> {
    match d {
        DocView::Text(s) => Some(seq![s]),
        DocView::List(items) => spec_text_list(items),
        _ => None,
    }
}

/// The optional theme name: absent is `None`, a string is `Some`, anything
/// else is rejected.
pub open spec fn field_theme(m: Map<Seq<char>, DocView>) -> Option<Option<Seq<char>>> {
    if !m.contains_key("theme"@) {
        Some(None)
    } else {
        match m["theme"@] {
            DocView::Text(s) => Some(Some(s)),
            _ => None,
        }
    }
}

pub open spec fn spec_general(d: DocView, shell: Option<Seq<char>>) -> Option<
    GeneralConfigView,
> {
    match d {
        DocView::Table(m) => if m.dom().subset_of(general_keys()) {
            let c = if !m.contains_key("command"@) {
                Some(default_command_view(shell))
            } else {
                spec_command_value(m["command"@])
            };
            match (c, field_text(m, "font"@, default_font_view()), field_theme(m)) {
                (Some(command), Some(font), Some(theme)) => Some(
                    GeneralConfigView { command, font, theme },
                ),
                _ => None,
            }
        } else {
            None
        },
        _ => None,
    }
}

pub open spec fn spec_size(d: DocView) -> Option<WindowSizeConfigView> {
    match d {
        DocView::Table(m) => if m.dom().subset_of(size_keys()) {
            match (field_u32(m, "width"@, 1200), field_u32(m, "height"@, 800)) {
                (Some(width), Some(height)) => Some(WindowSizeConfigView { width, height }),
                _ => None,
            }
        } else {
            None
        },
        _ => None,
    }
}

pub open spec fn spec_padding(d: DocView) -> Option<WindowPaddingConfigView> {
    match d {
        DocView::Table(m) => if m.dom().subset_of(padding_keys()) {
            match (field_u32(m, "x"@, 8), field_u32(m, "y"@, 8)) {
                (Some(x), Some(y)) => Some(WindowPaddingConfigView { x, y }),
                _ => None,
            }
        } else {
            None
        },
        _ => None,
    }
}

pub open spec fn spec_window(d: DocView) -> Option<WindowConfigView> {
    match d {
        DocView::Table(m) => if m.dom().subset_of(window_keys()) {
            let s = if !m.contains_key("size"@) {
                Some(spec_default_size())
            } else {
                spec_size(m["size"@])
            };
            let p = if !m.contains_key("padding"@) {
                Some(spec_default_padding())
            } else {
                spec_padding(m["padding"@])
            };
            match (field_text(m, "title"@, default_title_view()),
                field_bool(m, "scroll_bar"@, true),
                s,
                p,
            ) {
                (Some(title), Some(scroll_bar), Some(size), Some(padding)) => Some(
                    WindowConfigView { title, scroll_bar, size, padding },
                ),
                _ => None,
            }
        } else {
            None
        },
        _ => None,
    }
}

/// Full resolution: a table whose keys all belong to the schema, each
/// section resolved with its own defaults; anything else is rejected.
pub open spec fn spec_resolve_config(d: DocView, shell: Option<Seq<char>>) -> Option<
    ConfigView,
> {
    match d {
        DocView::Table(m) => if m.dom().subset_of(config_keys()) {
            let g = if !m.contains_key("general"@) {
                Some(spec_default_general(shell))
            } else {
                spec_general(m["general"@], shell)
            };
            let w = if !m.contains_key("window"@) {
                Some(spec_default_window())
            } else {
                spec_window(m["window"@])
            };
            match (g, w) {
                (Some(general), Some(window)) => Some(ConfigView { general, window }),
                _ => None,
            }
        } else {
            None
        },
        _ => None,
    }
}

// ------------------------------------------------------------------
// Executable resolution.
// ------------------------------------------------------------------

/// Reads the command value: a single string or a list of strings.
fn command_value(v: toml::Value) -> (r: Result<Vec<String>, ()>)
    ensures
        match spec_command_value(value_model(v)) {
            Some(cs) => r matches Ok(out) && out.deep_view() == cs,
            None => r is Err,
        },
{
    match classify(v) {
        ValueKind::Text(s) => {
            let ghost sv = s@;
            let mut out: Vec<String> = Vec::new();
            out.push(s);
            proof {
                assert(out.deep_view() =~= seq![sv]);
            }
            Ok(out)
        },
        ValueKind::List(vals) => text_list_values(vals),
        _ => Err(()),
    }
}

/// Reads a text field with its default.
fn text_field(entries: &Vec<(String, toml::Value)>, key: &String, default: String) -> (r: Result<
    String,
    (),
>)
    requires
        distinct_keys(entries@),
    ensures
        match field_text(entries_model(entries@), key@, default@) {
            Some(s) => r matches Ok(out) && out@ == s,
            None => r is Err,
        },
{
    match find_value(entries, key) {
        None => Ok(default),
        Some(v) => match classify(v) {
            ValueKind::Text(s) => Ok(s),
            _ => Err(()),
        },
    }
}

/// Reads an unsigned integer field with its default.
fn u32_field(entries: &Vec<(String, toml::Value)>, key: &String, default: u32) -> (r: Result<
    u32,
    (),
>)
    requires
        distinct_keys(entries@),
    ensures
        match field_u32(entries_model(entries@), key@, default) {
            Some(u) => r matches Ok(out) && out == u,
            None => r is Err,
        },
{
    match find_value(entries, key) {
        None => Ok(default),
        Some(v) => match classify(v) {
            ValueKind::Int(i) => if 0 <= i && i <= u32::MAX as i64 {
                Ok(i as u32)
            } else {
                Err(())
            },
            _ => Err(()),
        },
    }
}

/// Reads a boolean field with its default.
fn bool_field(entries: &Vec<(String, toml::Value)>, key: &String, default: bool) -> (r: Result<
    bool,
    (),
>)
    requires
        distinct_keys(entries@),
    ensures
        match field_bool(entries_model(entries@), key@, default) {
            Some(b) => r matches Ok(out) && out == b,
            None => r is Err,
        },
{
    match find_value(entries, key) {
        None => Ok(default),
        Some(v) => match classify(v) {
            ValueKind::Flag(b) => Ok(b),
            _ => Err(()),
        },
    }
}

#[verifier::loop_isolation(false)]
fn resolve_general(v: toml::Value, shell: Option<&str>) -> (r: Result<GeneralConfig, ()>)
    ensures
        match spec_general(value_model(v), shell.deep_view()) {
            Some(gv) => r matches Ok(g) && g@ == gv,
            None => r is Err,
        },
{
    let entries = match classify(v) {
        ValueKind::Table(entries) => entries,
        _ => {
            return Err(());
        },
    };
    let key_command = "command".to_owned();
    let key_font = "font".to_owned();
    let key_theme = "theme".to_owned();
    let mut i: usize = 0;
    while i < entries.len()
        invariant
            distinct_keys(entries@),
            0 <= i <= entries@.len(),
            forall|j: int|
                0 <= j < i ==> general_keys().contains(#[trigger] entries@[j].0@),
            key_command@ == "command"@,
            key_font@ == "font"@,
            key_theme@ == "theme"@,
        decreases entries@.len() - i,
    {
        if !(entries[i].0 == key_command || entries[i].0 == key_font || entries[i].0
            == key_theme) {
            proof {
                crate::doc::lemma_entries_model_found(entries@, i as int);
                assert(!general_keys().contains(entries@[i as int].0@));
                assert(!entries_model(entries@).dom().subset_of(general_keys()));
            }
            return Err(());
        }
        i = i + 1;
    }
    proof {
        lemma_entries_model_dom(entries@, general_keys());
    }
    let command = match find_value(&entries, &key_command) {
        None => GeneralConfig::default_command(shell),
        Some(cv) => match command_value(cv) {
            Ok(cs) => cs,
            Err(()) => {
                return Err(());
            },
        },
    };
    let font = match text_field(&entries, &key_font, GeneralConfig::default_font()) {
        Ok(f) => f,
        Err(()) => {
            return Err(());
        },
    };
    let theme = match find_value(&entries, &key_theme) {
        None => None,
        Some(tv) => match classify(tv) {
            ValueKind::Text(s) => Some(s),
            _ => {
                return Err(());
            },
        },
    };
    Ok(GeneralConfig { command, font, theme })
}

#[verifier::loop_isolation(false)]
fn resolve_size(v: toml::Value) -> (r: Result<WindowSizeConfig, ()>)
    ensures
        match spec_size(value_model(v)) {
            Some(sv) => r matches Ok(s) && s@ == sv,
            None => r is Err,
        },
{
    let entries = match classify(v) {
        ValueKind::Table(entries) => entries,
        _ => {
            return Err(());
        },
    };
    let key_width = "width".to_owned();
    let key_height = "height".to_owned();
    let mut i: usize = 0;
    while i < entries.len()
        invariant
            distinct_keys(entries@),
            0 <= i <= entries@.len(),
            forall|j: int| 0 <= j < i ==> size_keys().contains(#[trigger] entries@[j].0@),
            key_width@ == "width"@,
            key_height@ == "height"@,
        decreases entries@.len() - i,
    {
        if !(entries[i].0 == key_width || entries[i].0 == key_height) {
            proof {
                crate::doc::lemma_entries_model_found(entries@, i as int);
                assert(!size_keys().contains(entries@[i as int].0@));
                assert(!entries_model(entries@).dom().subset_of(size_keys()));
            }
            return Err(());
        }
        i = i + 1;
    }
    proof {
        lemma_entries_model_dom(entries@, size_keys());
    }
    let width = match u32_field(&entries, &key_width, WindowSizeConfig::default_width()) {
        Ok(w) => w,
        Err(()) => {
            return Err(());
        },
    };
    let height = match u32_field(&entries, &key_height, WindowSizeConfig::default_height()) {
        Ok(h) => h,
        Err(()) => {
            return Err(());
        },
    };
    Ok(WindowSizeConfig { width, height })
}

#[verifier::loop_isolation(false)]
fn resolve_padding(v: toml::Value) -> (r: Result<WindowPaddingConfig, ()>)
    ensures
        match spec_padding(value_model(v)) {
            Some(pv) => r matches Ok(p) && p@ == pv,
            None => r is Err,
        },
{
    let entries = match classify(v) {
        ValueKind::Table(entries) => entries,
        _ => {
            return Err(());
        },
    };
    let key_x = "x".to_owned();
    let key_y = "y".to_owned();
    let mut i: usize = 0;
    while i < entries.len()
        invariant
            distinct_keys(entries@),
            0 <= i <= entries@.len(),
            forall|j: int| 0 <= j < i ==> padding_keys().contains(#[trigger] entries@[j].0@),
            key_x@ == "x"@,
            key_y@ == "y"@,
        decreases entries@.len() - i,
    {
        if !(entries[i].0 == key_x || entries[i].0 == key_y) {
            proof {
                crate::doc::lemma_entries_model_found(entries@, i as int);
                assert(!padding_keys().contains(entries@[i as int].0@));
                assert(!entries_model(entries@).dom().subset_of(padding_keys()));
            }
            return Err(());
        }
        i = i + 1;
    }
    proof {
        lemma_entries_model_dom(entries@, padding_keys());
    }
    let x = match u32_field(&entries, &key_x, WindowPaddingConfig::default_x()) {
        Ok(x) => x,
        Err(()) => {
            return Err(());
        },
    };
    let y = match u32_field(&entries, &key_y, WindowPaddingConfig::default_y()) {
        Ok(y) => y,
        Err(()) => {
            return Err(());
        },
    };
    Ok(WindowPaddingConfig { x, y })
}

#[verifier::loop_isolation(false)]
fn resolve_window(v: toml::Value) -> (r: Result<WindowConfig, ()>)
    ensures
        match spec_window(value_model(v)) {
            Some(wv) => r matches Ok(w) && w@ == wv,
            None => r is Err,
        },
{
    let entries = match classify(v) {
        ValueKind::Table(entries) => entries,
        _ => {
            return Err(());
        },
    };
    let key_title = "title".to_owned();
    let key_scroll_bar = "scroll_bar".to_owned();
    let key_size = "size".to_owned();
    let key_padding = "padding".to_owned();
    let mut i: usize = 0;
    while i < entries.len()
        invariant
            distinct_keys(entries@),
            0 <= i <= entries@.len(),
            forall|j: int| 0 <= j < i ==> window_keys().contains(#[trigger] entries@[j].0@),
            key_title@ == "title"@,
            key_scroll_bar@ == "scroll_bar"@,
            key_size@ == "size"@,
            key_padding@ == "padding"@,
        decreases entries@.len() - i,
    {
        if !(entries[i].0 == key_title || entries[i].0 == key_scroll_bar || entries[i].0
            == key_size || entries[i].0 == key_padding) {
            proof {
                crate::doc::lemma_entries_model_found(entries@, i as int);
                assert(!window_keys().contains(entries@[i as int].0@));
                assert(!entries_model(entries@).dom().subset_of(window_keys()));
            }
            return Err(());
        }
        i = i + 1;
    }
    proof {
        lemma_entries_model_dom(entries@, window_keys());
    }
    let title = match text_field(&entries, &key_title, WindowConfig::default_title()) {
        Ok(t) => t,
        Err(()) => {
            return Err(());
        },
    };
    let scroll_bar = match bool_field(&entries, &key_scroll_bar, WindowConfig::default_scroll_bar())
        {
        Ok(b) => b,
        Err(()) => {
            return Err(());
        },
    };
    let size = match find_value(&entries, &key_size) {
        None => WindowConfig::default_size(),
        Some(sv) => match resolve_size(sv) {
            Ok(s) => s,
            Err(()) => {
                return Err(());
            },
        },
    };
    let padding = match find_value(&entries, &key_padding) {
        None => WindowConfig::default_padding(),
        Some(pv) => match resolve_padding(pv) {
            Ok(p) => p,
            Err(()) => {
                return Err(());
            },
        },
    };
    Ok(WindowConfig { title, scroll_bar, size, padding })
}

#[verifier::loop_isolation(false)]
fn resolve_config_value(v: toml::Value, shell: Option<&str>) -> (r: Result<Config, ()>)
    ensures
        match spec_resolve_config(value_model(v), shell.deep_view()) {
            Some(cv) => r matches Ok(c) && c@ == cv,
            None => r is Err,
        },
{
    let entries = match classify(v) {
        ValueKind::Table(entries) => entries,
        _ => {
            return Err(());
        },
    };
    let key_general = "general".to_owned();
    let key_window = "window".to_owned();
    let mut i: usize = 0;
    while i < entries.len()
        invariant
            distinct_keys(entries@),
            0 <= i <= entries@.len(),
            forall|j: int| 0 <= j < i ==> config_keys().contains(#[trigger] entries@[j].0@),
            key_general@ == "general"@,
            key_window@ == "window"@,
        decreases entries@.len() - i,
    {
        if !(entries[i].0 == key_general || entries[i].0 == key_window) {
            proof {
                crate::doc::lemma_entries_model_found(entries@, i as int);
                assert(!config_keys().contains(entries@[i as int].0@));
                assert(!entries_model(entries@).dom().subset_of(config_keys()));
            }
            return Err(());
        }
        i = i + 1;
    }
    proof {
        lemma_entries_model_dom(entries@, config_keys());
    }
    let general = match find_value(&entries, &key_general) {
        None => Config::default_general(shell),
        Some(gv) => match resolve_general(gv, shell) {
            Ok(g) => g,
            Err(()) => {
                return Err(());
            },
        },
    };
    let window = match find_value(&entries, &key_window) {
        None => Config::default_window(),
        Some(wv) => match resolve_window(wv) {
            Ok(w) => w,
            Err(()) => {
                return Err(());
            },
        },
    };
    Ok(Config { general, window })
}

impl Config {
    /// Resolves a configuration text: either a fully-defaulted valid
    /// configuration comes back, or `Deserialize`; nothing in between. The
    /// ambient shell, read outside, feeds the default command.
    pub fn from_toml_str(text: &str, shell: Option<&str>) -> (r: Result<Config, ConfigError>)
        ensures
            match toml_doc_of(text@) {
                Some(d) => match spec_resolve_config(d, shell.deep_view()) {
                    Some(cv) => r matches Ok(c) && c@ == cv,
                    None => r matches Err(ConfigError::Deserialize),
                },
                None => r matches Err(ConfigError::Deserialize),
            },
    {
        let v = match parse_value(text) {
            Ok(v) => v,
            Err(()) => {
                return Err(ConfigError::Deserialize);
            },
        };
        match resolve_config_value(v, shell) {
            Ok(c) => Ok(c),
            Err(()) => Err(ConfigError::Deserialize),
        }
    }

    /// Fallback policy: resolution failure is never fatal; the default
    /// configuration for the given ambient shell stands in for a failed one.
    pub fn or_default(r: Result<Config, ConfigError>, shell: Option<&str>) -> (c: Config)
        ensures
            c@ == match r {
                Ok(cfg) => cfg@,
                Err(_) => spec_default_config(shell.deep_view()),
            },
    {
        match r {
            Ok(c) => c,
            Err(_) => Config::default_with_shell(shell),
        }
    }
}


// ------------------------------------------------------------------
// Rendering a configuration back into a document.
// ------------------------------------------------------------------

pub open spec fn spec_command_doc(command: Seq<Seq<char>>) -> DocView {
    DocView::List(Seq::new(command.len(), |i: int| DocView::Text(command[i])))
}

pub open spec fn spec_general_doc(g: GeneralConfigView) -> DocView {
    DocView::Table(
        {
            let base = Map::empty().insert("command"@, spec_command_doc(g.command)).insert(
                "font"@,
                DocView::Text(g.font),
            );
            match g.theme {
                Some(t) => base.insert("theme"@, DocView::Text(t)),
                None => base,
            }
        },
    )
}

pub open spec fn spec_size_doc(s: WindowSizeConfigView) -> DocView {
    DocView::Table(
        Map::empty().insert("width"@, DocView::Int(s.width as int)).insert(
            "height"@,
            DocView::Int(s.height as int),
        ),
    )
}

pub open spec fn spec_padding_doc(p: WindowPaddingConfigView) -> DocView {
    DocView::Table(
        Map::empty().insert("x"@, DocView::Int(p.x as int)).insert(
            "y"@,
            DocView::Int(p.y as int),
        ),
    )
}

pub open spec fn spec_window_doc(w: WindowConfigView) -> DocView {
    DocView::Table(
        Map::empty().insert("title"@, DocView::Text(w.title)).insert(
            "scroll_bar"@,
            DocView::Flag(w.scroll_bar),
        ).insert("size"@, spec_size_doc(w.size)).insert("padding"@, spec_padding_doc(w.padding)),
    )
}

pub open spec fn spec_config_doc(c: ConfigView) -> DocView {
    DocView::Table(
        Map::empty().insert("general"@, spec_general_doc(c.general)).insert(
            "window"@,
            spec_window_doc(c.window),
        ),
    )
}

impl WindowSizeConfig {
    fn to_value(&self) -> (r: toml::Value)
        ensures
            value_model(r) == spec_size_doc(self@),
    {
        let mut entries: Vec<(String, toml::Value)> = Vec::new();
        entries.push(("width".to_owned(), value_of(ValueKind::Int(self.width as i64))));
        entries.push(("height".to_owned(), value_of(ValueKind::Int(self.height as i64))));
        proof {
            reveal_with_fuel(entries_model, 4);
            assert(entries@.drop_last().drop_last() =~= Seq::<(String, toml::Value)>::empty());
            assert(entries_model(entries@) =~= Map::empty().insert(
                "width"@,
                DocView::Int(self.width as int),
            ).insert("height"@, DocView::Int(self.height as int)));
        }
        value_of(ValueKind::Table(entries))
    }
}

impl WindowPaddingConfig {
    fn to_value(&self) -> (r: toml::Value)
        ensures
            value_model(r) == spec_padding_doc(self@),
    {
        let mut entries: Vec<(String, toml::Value)> = Vec::new();
        entries.push(("x".to_owned(), value_of(ValueKind::Int(self.x as i64))));
        entries.push(("y".to_owned(), value_of(ValueKind::Int(self.y as i64))));
        proof {
            reveal_with_fuel(entries_model, 4);
            assert(entries@.drop_last().drop_last() =~= Seq::<(String, toml::Value)>::empty());
            assert(entries_model(entries@) =~= Map::empty().insert(
                "x"@,
                DocView::Int(self.x as int),
            ).insert("y"@, DocView::Int(self.y as int)));
        }
        value_of(ValueKind::Table(entries))
    }
}

impl GeneralConfig {
    #[verifier::loop_isolation(false)]
    fn to_value(&self) -> (r: toml::Value)
        ensures
            value_model(r) == spec_general_doc(self@),
    {
        let mut cmd_vals: Vec<toml::Value> = Vec::new();
        let mut i: usize = 0;
        while i < self.command.len()
            invariant
                0 <= i <= self.command@.len(),
                cmd_vals@.len() == i,
                forall|j: int|
                    0 <= j < i ==> value_model(#[trigger] cmd_vals@[j]) == DocView::Text(
                        self.command@[j]@,
                    ),
            decreases self.command@.len() - i,
        {
            cmd_vals.push(value_of(ValueKind::Text(self.command[i].clone())));
            i = i + 1;
        }
        proof {
            assert(Seq::new(cmd_vals@.len(), |k: int| value_model(cmd_vals@[k]))
                =~= spec_command_doc(self@.command)->List_0);
        }
        let command_value = value_of(ValueKind::List(cmd_vals));
        let mut entries: Vec<(String, toml::Value)> = Vec::new();
        entries.push(("command".to_owned(), command_value));
        entries.push(("font".to_owned(), value_of(ValueKind::Text(self.font.clone()))));
        match &self.theme {
            Some(t) => {
                entries.push(("theme".to_owned(), value_of(ValueKind::Text(t.clone()))));
                proof {
                    reveal_with_fuel(entries_model, 5);
                    assert(entries@.drop_last().drop_last().drop_last() =~= Seq::<
                        (String, toml::Value),
                    >::empty());
                    assert(entries_model(entries@) =~= spec_general_doc(self@)->Table_0);
                }
            },
            None => {
                proof {
                    reveal_with_fuel(entries_model, 4);
                    assert(entries@.drop_last().drop_last() =~= Seq::<
                        (String, toml::Value),
                    >::empty());
                    assert(entries_model(entries@) =~= spec_general_doc(self@)->Table_0);
                }
            },
        }
        value_of(ValueKind::Table(entries))
    }
}

impl WindowConfig {
    fn to_value(&self) -> (r: toml::Value)
        ensures
            value_model(r) == spec_window_doc(self@),
    {
        let mut entries: Vec<(String, toml::Value)> = Vec::new();
        entries.push(("title".to_owned(), value_of(ValueKind::Text(self.title.clone()))));
        entries.push(("scroll_bar".to_owned(), value_of(ValueKind::Flag(self.scroll_bar))));
        entries.push(("size".to_owned(), self.size.to_value()));
        entries.push(("padding".to_owned(), self.padding.to_value()));
        proof {
            reveal_with_fuel(entries_model, 6);
            assert(entries@.drop_last().drop_last().drop_last().drop_last() =~= Seq::<
                (String, toml::Value),
            >::empty());
            assert(entries_model(entries@) =~= spec_window_doc(self@)->Table_0);
        }
        value_of(ValueKind::Table(entries))
    }
}

impl Config {
    fn to_value(&self) -> (r: toml::Value)
        ensures
            value_model(r) == spec_config_doc(self@),
    {
        let mut entries: Vec<(String, toml::Value)> = Vec::new();
        entries.push(("general".to_owned(), self.general.to_value()));
        entries.push(("window".to_owned(), self.window.to_value()));
        proof {
            reveal_with_fuel(entries_model, 4);
            assert(entries@.drop_last().drop_last() =~= Seq::<(String, toml::Value)>::empty());
            assert(entries_model(entries@) =~= spec_config_doc(self@)->Table_0);
        }
        value_of(ValueKind::Table(entries))
    }

    /// Renders the configuration as a document text. Rendering always
    /// succeeds, and parsing the text back gives exactly the rendered
    /// document, so resolution of the text yields this configuration again.
    pub fn to_toml_string(&self) -> (r: Result<String, ()>)
        ensures
            r is Ok,
            r matches Ok(s) ==> s@ == toml_text_of(spec_config_doc(self@)),
            r matches Ok(s) ==> toml_doc_of(s@) == Some(spec_config_doc(self@)),
    {
        let v = self.to_value();
        proof {
            lemma_config_doc_defined(self@);
        }
        write_value(&v)
    }
}

/// A rendered configuration document holds only strings, integers, booleans
/// and tables of them: no float or datetime hides in it.
proof fn lemma_config_doc_defined(cv: ConfigView)
    ensures
        crate::doc::doc_defined(spec_config_doc(cv)),
{
    let cmd = spec_command_doc(cv.general.command);
    assert(crate::doc::doc_defined(cmd)) by {
        let items = cmd->List_0;
        assert forall|i: int| 0 <= i < items.len() implies crate::doc::doc_defined(
            #[trigger] items[i],
        ) by {
            assert(items[i] == DocView::Text(cv.general.command[i]));
        }
    }
    let gd = spec_general_doc(cv.general);
    assert(crate::doc::doc_defined(gd)) by {
        let m = gd->Table_0;
        assert forall|k: Seq<char>| m.contains_key(k) implies crate::doc::doc_defined(
            #[trigger] m[k],
        ) by {
            match cv.general.theme {
                Some(t) => {
                    if k == "theme"@ {
                        assert(m[k] == DocView::Text(t));
                    } else if k == "font"@ {
                        assert(m[k] == DocView::Text(cv.general.font));
                    } else {
                        assert(m[k] == cmd);
                    }
                },
                None => {
                    if k == "font"@ {
                        assert(m[k] == DocView::Text(cv.general.font));
                    } else {
                        assert(m[k] == cmd);
                    }
                },
            }
        }
    }
    let sd = spec_size_doc(cv.window.size);
    assert(crate::doc::doc_defined(sd)) by {
        let m = sd->Table_0;
        assert forall|k: Seq<char>| m.contains_key(k) implies crate::doc::doc_defined(
            #[trigger] m[k],
        ) by {
            if k == "height"@ {
                assert(m[k] == DocView::Int(cv.window.size.height as int));
            } else {
                assert(m[k] == DocView::Int(cv.window.size.width as int));
            }
        }
    }
    let pd = spec_padding_doc(cv.window.padding);
    assert(crate::doc::doc_defined(pd)) by {
        let m = pd->Table_0;
        assert forall|k: Seq<char>| m.contains_key(k) implies crate::doc::doc_defined(
            #[trigger] m[k],
        ) by {
            if k == "y"@ {
                assert(m[k] == DocView::Int(cv.window.padding.y as int));
            } else {
                assert(m[k] == DocView::Int(cv.window.padding.x as int));
            }
        }
    }
    let wd = spec_window_doc(cv.window);
    assert(crate::doc::doc_defined(wd)) by {
        let m = wd->Table_0;
        assert forall|k: Seq<char>| m.contains_key(k) implies crate::doc::doc_defined(
            #[trigger] m[k],
        ) by {
            if k == "padding"@ {
                assert(m[k] == pd);
            } else if k == "size"@ {
                assert(m[k] == sd);
            } else if k == "scroll_bar"@ {
                assert(m[k] == DocView::Flag(cv.window.scroll_bar));
            } else {
                assert(m[k] == DocView::Text(cv.window.title));
            }
        }
    }
    assert(crate::doc::doc_defined(spec_config_doc(cv))) by {
        let m = spec_config_doc(cv)->Table_0;
        assert forall|k: Seq<char>| m.contains_key(k) implies crate::doc::doc_defined(
            #[trigger] m[k],
        ) by {
            if k == "window"@ {
                assert(m[k] == wd);
            } else {
                assert(m[k] == gd);
            }
        }
    }
}



// ------------------------------------------------------------------
// Laws of resolution.
// ------------------------------------------------------------------

/// Law: the empty document resolves to the default configuration, whatever
/// the ambient shell.
pub proof fn lemma_empty_document_defaults(shell: Option<Seq<char>>)
    ensures
        spec_resolve_config(DocView::Table(Map::empty()), shell) == Some(
            spec_default_config(shell),
        ),
{
    assert(Map::<Seq<char>, DocView>::empty().dom() =~= Set::<Seq<char>>::empty());
}

/// Law: a valid document that omits a top-level section receives that
/// section's default.
pub proof fn lemma_omitted_sections_default(
    m: Map<Seq<char>, DocView>,
    cv: ConfigView,
    shell: Option<Seq<char>>,
)
    requires
        spec_resolve_config(DocView::Table(m), shell) == Some(cv),
    ensures
        !m.contains_key("general"@) ==> cv.general == spec_default_general(shell),
        !m.contains_key("window"@) ==> cv.window == spec_default_window(),
{
}

/// Law: a valid `general` section that omits a field receives that field's
/// default.
pub proof fn lemma_omitted_general_fields_default(
    m: Map<Seq<char>, DocView>,
    gv: GeneralConfigView,
    shell: Option<Seq<char>>,
)
    requires
        spec_general(DocView::Table(m), shell) == Some(gv),
    ensures
        !m.contains_key("command"@) ==> gv.command == default_command_view(shell),
        !m.contains_key("font"@) ==> gv.font == default_font_view(),
        !m.contains_key("theme"@) ==> gv.theme is None,
{
}

/// Law: a valid `window` section that omits a field receives that field's
/// default.
pub proof fn lemma_omitted_window_fields_default(m: Map<Seq<char>, DocView>, wv: WindowConfigView)
    requires
        spec_window(DocView::Table(m)) == Some(wv),
    ensures
        !m.contains_key("title"@) ==> wv.title == default_title_view(),
        !m.contains_key("scroll_bar"@) ==> wv.scroll_bar == true,
        !m.contains_key("size"@) ==> wv.size == spec_default_size(),
        !m.contains_key("padding"@) ==> wv.padding == spec_default_padding(),
{
}

/// Law: a valid `window.size` section that omits a field receives that
/// field's default.
pub proof fn lemma_omitted_size_fields_default(m: Map<Seq<char>, DocView>, sv: WindowSizeConfigView)
    requires
        spec_size(DocView::Table(m)) == Some(sv),
    ensures
        !m.contains_key("width"@) ==> sv.width == 1200,
        !m.contains_key("height"@) ==> sv.height == 800,
{
}

/// Law: a valid `window.padding` section that omits a field receives that
/// field's default.
pub proof fn lemma_omitted_padding_fields_default(
    m: Map<Seq<char>, DocView>,
    pv: WindowPaddingConfigView,
)
    requires
        spec_padding(DocView::Table(m)) == Some(pv),
    ensures
        !m.contains_key("x"@) ==> pv.x == 8,
        !m.contains_key("y"@) ==> pv.y == 8,
{
}

/// Law: rendering a resolved configuration as a document and resolving that
/// document gives the same configuration back; the second pass loses
/// nothing to defaulting.
pub proof fn lemma_config_document_round_trip(cv: ConfigView, shell: Option<Seq<char>>)
    ensures
        spec_resolve_config(spec_config_doc(cv), shell) == Some(cv),
{
    reveal_strlit("general");
    reveal_strlit("window");
    reveal_strlit("command");
    reveal_strlit("font");
    reveal_strlit("theme");
    reveal_strlit("title");
    reveal_strlit("scroll_bar");
    reveal_strlit("size");
    reveal_strlit("padding");
    reveal_strlit("width");
    reveal_strlit("height");
    reveal_strlit("x");
    reveal_strlit("y");
    assert("x"@ != "y"@) by {
        assert("x"@[0] == 'x');
        assert("y"@[0] == 'y');
    }
    assert("general"@.len() == 7);
    assert("window"@.len() == 6);
    assert("command"@.len() == 7);
    assert("font"@.len() == 4);
    assert("theme"@.len() == 5);
    assert("title"@.len() == 5);
    assert("scroll_bar"@.len() == 10);
    assert("size"@.len() == 4);
    assert("padding"@.len() == 7);
    assert("width"@.len() == 5);
    assert("height"@.len() == 6);
    assert("command"@[0] == 'c');
    assert("general"@[0] == 'g');
    assert("padding"@[0] == 'p');
    let gd = spec_general_doc(cv.general);
    let wd = spec_window_doc(cv.window);
    let m = spec_config_doc(cv)->Table_0;
    assert(m.dom().subset_of(config_keys()));
    assert(m["general"@] == gd);
    assert(m["window"@] == wd);
    let gm = gd->Table_0;
    assert(gm.dom().subset_of(general_keys()));
    assert(gm["command"@] == spec_command_doc(cv.general.command));
    assert(gm["font"@] == DocView::Text(cv.general.font));
    let items = spec_command_doc(cv.general.command)->List_0;
    assert(forall|i: int| 0 <= i < items.len() ==> items[i] is Text);
    assert(spec_text_list(items) matches Some(texts) && texts =~= cv.general.command);
    match cv.general.theme {
        Some(t) => {
            assert(gm["theme"@] == DocView::Text(t));
        },
        None => {
            assert(!gm.contains_key("theme"@));
        },
    }
    assert(spec_general(gd, shell) matches Some(g) && g =~= cv.general);
    let wm = wd->Table_0;
    assert(wm.dom().subset_of(window_keys()));
    assert(wm["title"@] == DocView::Text(cv.window.title));
    assert(wm["scroll_bar"@] == DocView::Flag(cv.window.scroll_bar));
    assert(wm["size"@] == spec_size_doc(cv.window.size));
    assert(wm["padding"@] == spec_padding_doc(cv.window.padding));
    let sm = spec_size_doc(cv.window.size)->Table_0;
    assert(sm.dom().subset_of(size_keys()));
    assert(spec_size(spec_size_doc(cv.window.size)) matches Some(s) && s =~= cv.window.size);
    let pm = spec_padding_doc(cv.window.padding)->Table_0;
    assert(pm.dom().subset_of(padding_keys()));
    assert(spec_padding(spec_padding_doc(cv.window.padding)) matches Some(p) && p
        =~= cv.window.padding);
    assert(spec_window(wd) matches Some(w) && w =~= cv.window);
    assert(spec_resolve_config(spec_config_doc(cv), shell) matches Some(c) && c =~= cv);
}


} // verus!
