//! Theme resolution: colors are validated during resolution itself, so a
//! `Theme` value is never observed in an unvalidated state, and a failed
//! resolution falls back to the built-in default theme.

use vstd::prelude::*;
use vstd::string::StringExecFns;

use crate::color::{is_hex_color, is_hex_digit, validate_color, validate_palette, PALETTE_SIZE};
use crate::doc::{
    classify, distinct_keys, entries_model, find_value, parse_value, spec_text_list,
    text_list_values, toml_doc_of, value_model, DocView, ValueKind,
};

verus! {

broadcast use vstd::string::group_string_axioms;

/// Why a theme document could not be resolved.
#[derive(Debug, Clone, Copy, PartialEq, Eq, Structural)]
pub enum ThemeError {
    /// The file could not be read.
    Io,
    /// The document is malformed, a required field is missing, or a color
    /// fails validation.
    Deserialize,
}

/// Resolved theme: foreground, background and the 16 ANSI palette slots, in
/// order.
#[derive(Debug, Clone)]
pub struct Theme {
    pub foreground: String,
    pub background: String,
    pub palette: Vec<String>,
}

#[verifier::ext_equal]
pub struct ThemeView {
    pub foreground: Seq<char>,
    pub background: Seq<char>,
    pub palette: Seq<Seq<char>>,
}

impl View for Theme {
    type V = ThemeView;

    open spec fn view(&self) -> ThemeView {
        ThemeView {
            foreground: self.foreground@,
            background: self.background@,
            palette: self.palette.deep_view(),
        }
    }
}

/// Well-formedness: both colors valid, and exactly 16 valid palette slots.
pub open spec fn theme_wf(t: ThemeView) -> bool {
    &&& is_hex_color(t.foreground)
    &&& is_hex_color(t.background)
    &&& t.palette.len() == PALETTE_SIZE
    &&& forall|i: int| 0 <= i < t.palette.len() ==> is_hex_color(#[trigger] t.palette[i])
}

impl Theme {
    pub open spec fn wf(&self) -> bool {
        theme_wf(self@)
    }
}

// ------------------------------------------------------------------
// What theme resolution means, over the document model. Unlike the
// configuration schema, unrecognized keys are ignored, and every field
// is required: a theme document has no defaults.
// ------------------------------------------------------------------

/// A required color field: present, a string, and a valid color.
pub open spec fn spec_color_field(m: Map<Seq<char>, DocView>, key: Seq<char>) -> Option<Seq<char>> {
    if m.contains_key(key) {
        match m[key] {
            DocView::Text(s) => if is_hex_color(s) {
                Some(s)
            } else {
                None
            },
            _ => None,
        }
    } else {
        None
    }
}

/// The required palette field: a list of exactly 16 valid color strings.
pub open spec fn spec_palette_field(m: Map<Seq<char>, DocView>) -> Option<Seq<Seq<char>>> {
    if m.contains_key("palette"@) {
        match m["palette"@] {
            DocView::List(items) => match spec_text_list(items) {
                Some(texts) => if texts.len() == PALETTE_SIZE && (forall|i: int|
                    0 <= i < texts.len() ==> is_hex_color(#[trigger] texts[i])) {
                    Some(texts)
                } else {
                    None
                },
                None => None,
            },
            _ => None,
        }
    } else {
        None
    }
}

pub open spec fn spec_resolve_theme(d: DocView) -> Option<ThemeView> {
    match d {
        DocView::Table(m) => match (spec_color_field(m, "foreground"@),
            spec_color_field(m, "background"@),
            spec_palette_field(m),
        ) {
            (Some(foreground), Some(background), Some(palette)) => Some(
                ThemeView { foreground, background, palette },
            ),
            _ => None,
        },
        _ => None,
    }
}

/// Law: a resolved theme is well-formed; validation happens during
/// resolution, not after.
pub proof fn lemma_resolved_theme_wf(d: DocView)
    ensures
        spec_resolve_theme(d) matches Some(tv) ==> theme_wf(tv),
{
}

// ------------------------------------------------------------------
// Executable resolution.
// ------------------------------------------------------------------

/// Reads a required color field, validating it.
fn color_field(entries: &Vec<(String, toml::Value)>, key: &String) -> (r: Result<String, ()>)
    requires
        distinct_keys(entries@),
    ensures
        match spec_color_field(entries_model(entries@), key@) {
            Some(s) => r matches Ok(out) && out@ == s,
            None => r is Err,
        },
{
    match find_value(entries, key) {
        None => Err(()),
        Some(v) => match classify(v) {
            ValueKind::Text(s) => match validate_color(s.as_str()) {
                Ok(c) => Ok(c),
                Err(_) => Err(()),
            },
            _ => Err(()),
        },
    }
}

fn resolve_theme_value(v: toml::Value) -> (r: Result<Theme, ()>)
    ensures
        match spec_resolve_theme(value_model(v)) {
            Some(tv) => r matches Ok(t) && t@ == tv,
            None => r is Err,
        },
{
    let entries = match classify(v) {
        ValueKind::Table(entries) => entries,
        _ => {
            return Err(());
        },
    };
    let foreground = match color_field(&entries, &"foreground".to_owned()) {
        Ok(c) => c,
        Err(()) => {
            return Err(());
        },
    };
    let background = match color_field(&entries, &"background".to_owned()) {
        Ok(c) => c,
        Err(()) => {
            return Err(());
        },
    };
    let palette_value = match find_value(&entries, &"palette".to_owned()) {
        Some(pv) => pv,
        None => {
            return Err(());
        },
    };
    let items = match classify(palette_value) {
        ValueKind::List(items) => items,
        _ => {
            return Err(());
        },
    };
    let texts = match text_list_values(items) {
        Ok(t) => t,
        Err(()) => {
            return Err(());
        },
    };
    proof {
        assert(texts@.len() == texts.deep_view().len());
        assert(forall|i: int| 0 <= i < texts@.len() ==> #[trigger] texts@[i]@ == texts.deep_view()[i]);
    }
    let palette = match validate_palette(&texts) {
        Ok(p) => p,
        Err(_) => {
            return Err(());
        },
    };
    proof {
        assert(palette.deep_view() =~= texts.deep_view());
    }
    Ok(Theme { foreground, background, palette })
}

impl Theme {
    /// The themes directory under a configuration directory.
    pub fn directory(config_dir: &str) -> (r: String)
        ensures
            r@ == config_dir@ + "/themes"@,
    {
        let mut s = config_dir.to_owned();
        s.append("/themes");
        s
    }

    /// Resolves a theme text: either a fully-validated theme comes back, or
    /// `Deserialize`; an invalid theme document cannot produce a `Theme`
    /// value at all.
    pub fn from_toml_str(text: &str) -> (r: Result<Theme, ThemeError>)
        ensures
            match toml_doc_of(text@) {
                Some(d) => match spec_resolve_theme(d) {
                    Some(tv) => r matches Ok(t) && t@ == tv && t.wf(),
                    None => r matches Err(ThemeError::Deserialize),
                },
                None => r matches Err(ThemeError::Deserialize),
            },
    {
        let v = match parse_value(text) {
            Ok(v) => v,
            Err(()) => {
                return Err(ThemeError::Deserialize);
            },
        };
        match resolve_theme_value(v) {
            Ok(t) => Ok(t),
            Err(()) => Err(ThemeError::Deserialize),
        }
    }

    /// Fallback policy: a theme that could not be resolved, or no requested
    /// theme at all, means the built-in default theme; never fatal.
    pub fn resolve(loaded: Option<Result<Theme, ThemeError>>) -> (t: Theme)
        ensures
            t@ == match loaded {
                Some(Ok(th)) => th@,
                Some(Err(_)) => spec_default_theme(),
                None => spec_default_theme(),
            },
            !(loaded matches Some(Ok(_))) ==> t.wf(),
    {
        match loaded {
            Some(Ok(t)) => t,
            Some(Err(_)) => Theme::default(),
            None => Theme::default(),
        }
    }
}


// ------------------------------------------------------------------
// The built-in default theme.
// ------------------------------------------------------------------

pub open spec fn default_palette_view() -> Seq<Seq<char>> {
    seq![
        "#241F31"@,
        "#C01C28"@,
        "#2EC27E"@,
        "#F5C211"@,
        "#1E78E4"@,
        "#9841BB"@,
        "#0AB9DC"@,
        "#C0BFBC"@,
        "#5E5C64"@,
        "#ED333B"@,
        "#57E389"@,
        "#F8E45C"@,
        "#51A1FF"@,
        "#C061CB"@,
        "#4FD2FD"@,
        "#F6F5F4"@,
    ]
}

pub open spec fn spec_default_theme() -> ThemeView {
    ThemeView {
        foreground: "#ffffff"@,
        background: "#1e1e1e"@,
        palette: default_palette_view(),
    }
}

proof fn lemma_hex7(s: Seq<char>)
    requires
        s.len() == 7,
        s[0] == '#',
        is_hex_digit(s[1]),
        is_hex_digit(s[2]),
        is_hex_digit(s[3]),
        is_hex_digit(s[4]),
        is_hex_digit(s[5]),
        is_hex_digit(s[6]),
    ensures
        is_hex_color(s),
{
    assert forall|i: int| 1 <= i < 7 implies is_hex_digit(s[i]) by {
        if i == 1 {
        } else if i == 2 {
        } else if i == 3 {
        } else if i == 4 {
        } else if i == 5 {
        } else {
            assert(i == 6);
        }
    }
}

/// Law: the built-in default theme is itself a valid theme; re-validating
/// it succeeds.
pub proof fn lemma_default_theme_wf()
    ensures
        theme_wf(spec_default_theme()),
{
    reveal_strlit("#ffffff");
    reveal_strlit("#1e1e1e");
    reveal_strlit("#241F31");
    reveal_strlit("#C01C28");
    reveal_strlit("#2EC27E");
    reveal_strlit("#F5C211");
    reveal_strlit("#1E78E4");
    reveal_strlit("#9841BB");
    reveal_strlit("#0AB9DC");
    reveal_strlit("#C0BFBC");
    reveal_strlit("#5E5C64");
    reveal_strlit("#ED333B");
    reveal_strlit("#57E389");
    reveal_strlit("#F8E45C");
    reveal_strlit("#51A1FF");
    reveal_strlit("#C061CB");
    reveal_strlit("#4FD2FD");
    reveal_strlit("#F6F5F4");
    lemma_hex7("#ffffff"@);
    lemma_hex7("#1e1e1e"@);
    lemma_hex7("#241F31"@);
    lemma_hex7("#C01C28"@);
    lemma_hex7("#2EC27E"@);
    lemma_hex7("#F5C211"@);
    lemma_hex7("#1E78E4"@);
    lemma_hex7("#9841BB"@);
    lemma_hex7("#0AB9DC"@);
    lemma_hex7("#C0BFBC"@);
    lemma_hex7("#5E5C64"@);
    lemma_hex7("#ED333B"@);
    lemma_hex7("#57E389"@);
    lemma_hex7("#F8E45C"@);
    lemma_hex7("#51A1FF"@);
    lemma_hex7("#C061CB"@);
    lemma_hex7("#4FD2FD"@);
    lemma_hex7("#F6F5F4"@);
    let p = default_palette_view();
    assert forall|i: int| 0 <= i < p.len() implies is_hex_color(#[trigger] p[i]) by {
        if i == 0 {
        } else if i == 1 {
        } else if i == 2 {
        } else if i == 3 {
        } else if i == 4 {
        } else if i == 5 {
        } else if i == 6 {
        } else if i == 7 {
        } else if i == 8 {
        } else if i == 9 {
        } else if i == 10 {
        } else if i == 11 {
        } else if i == 12 {
        } else if i == 13 {
        } else if i == 14 {
        } else {
            assert(i == 15);
        }
    }
}

impl Default for Theme {
    /// The built-in default theme: white on near-black with a standard
    /// 16-slot terminal palette.
    fn default() -> (r: Self)
        ensures
            r@ == spec_default_theme(),
            r.wf(),
    {
        let mut palette: Vec<String> = Vec::new();
        palette.push("#241F31".to_owned());
        palette.push("#C01C28".to_owned());
        palette.push("#2EC27E".to_owned());
        palette.push("#F5C211".to_owned());
        palette.push("#1E78E4".to_owned());
        palette.push("#9841BB".to_owned());
        palette.push("#0AB9DC".to_owned());
        palette.push("#C0BFBC".to_owned());
        palette.push("#5E5C64".to_owned());
        palette.push("#ED333B".to_owned());
        palette.push("#57E389".to_owned());
        palette.push("#F8E45C".to_owned());
        palette.push("#51A1FF".to_owned());
        palette.push("#C061CB".to_owned());
        palette.push("#4FD2FD".to_owned());
        palette.push("#F6F5F4".to_owned());
        proof {
            assert(palette.deep_view() =~= default_palette_view());
            lemma_default_theme_wf();
        }
        Theme {
            foreground: "#ffffff".to_owned(),
            background: "#1e1e1e".to_owned(),
            palette,
        }
    }
}

} // verus!
