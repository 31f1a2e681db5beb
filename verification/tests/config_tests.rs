use galactic::config::{Config, ConfigError, GeneralConfig, WindowConfig, WindowPaddingConfig,
    WindowSizeConfig};

fn assert_default_general(g: &GeneralConfig) {
    assert_eq!(g.command, vec!["/usr/bin/bash".to_string()]);
    assert_eq!(g.font, "Monospace 12");
    assert_eq!(g.theme, None);
}

fn assert_default_window(w: &WindowConfig) {
    assert_eq!(w.title, "Galactic");
    assert!(w.scroll_bar);
    assert_eq!(w.size.width, 1200);
    assert_eq!(w.size.height, 800);
    assert_eq!(w.padding.x, 8);
    assert_eq!(w.padding.y, 8);
}

#[test]
fn empty_document_resolves_to_default() {
    let c = Config::from_toml_str("", None).unwrap();
    assert_default_general(&c.general);
    assert_default_window(&c.window);
}

#[test]
fn default_matches_empty_document() {
    let resolved = Config::from_toml_str("", None).unwrap();
    let built = Config::default();
    assert_eq!(resolved.general.command, built.general.command);
    assert_eq!(resolved.general.font, built.general.font);
    assert_eq!(resolved.general.theme, built.general.theme);
    assert_eq!(resolved.window.title, built.window.title);
    assert_eq!(resolved.window.scroll_bar, built.window.scroll_bar);
    assert_eq!(resolved.window.size.width, built.window.size.width);
    assert_eq!(resolved.window.size.height, built.window.size.height);
    assert_eq!(resolved.window.padding.x, built.window.padding.x);
    assert_eq!(resolved.window.padding.y, built.window.padding.y);
}

#[test]
fn default_helpers_agree_with_defaults() {
    assert_eq!(GeneralConfig::default_command(None), vec!["/usr/bin/bash".to_string()]);
    assert_eq!(GeneralConfig::default_font(), "Monospace 12");
    assert_eq!(GeneralConfig::default_theme(), None);
    assert_eq!(WindowConfig::default_title(), "Galactic");
    assert!(WindowConfig::default_scroll_bar());
    assert_eq!(WindowSizeConfig::default_width(), 1200);
    assert_eq!(WindowSizeConfig::default_height(), 800);
    assert_eq!(WindowPaddingConfig::default_x(), 8);
    assert_eq!(WindowPaddingConfig::default_y(), 8);
}

#[test]
fn command_as_single_string_becomes_singleton_sequence() {
    let c = Config::from_toml_str("[general]\ncommand = \"/bin/sh\"\n", None).unwrap();
    assert_eq!(c.general.command, vec!["/bin/sh".to_string()]);
    assert_eq!(c.general.font, "Monospace 12");
    assert_eq!(c.general.theme, None);
    assert_default_window(&c.window);
}

#[test]
fn command_as_array_is_kept_in_order() {
    let c = Config::from_toml_str("[general]\ncommand = [\"/bin/zsh\", \"-l\", \"-i\"]\n", None)
        .unwrap();
    assert_eq!(
        c.general.command,
        vec!["/bin/zsh".to_string(), "-l".to_string(), "-i".to_string()]
    );
}

#[test]
fn command_with_non_string_element_is_rejected() {
    let r = Config::from_toml_str("[general]\ncommand = [\"/bin/sh\", 3]\n", None);
    assert_eq!(r.unwrap_err(), ConfigError::Deserialize);
}

#[test]
fn each_omitted_field_gets_its_default() {
    // a document setting only window.size.width still receives every other default
    let c = Config::from_toml_str("[window.size]\nwidth = 640\n", None).unwrap();
    assert_eq!(c.window.size.width, 640);
    assert_eq!(c.window.size.height, 800);
    assert_eq!(c.window.padding.x, 8);
    assert_eq!(c.window.padding.y, 8);
    assert_eq!(c.window.title, "Galactic");
    assert!(c.window.scroll_bar);
    assert_default_general(&c.general);

    let c = Config::from_toml_str("[general]\nfont = \"Hack 11\"\n", None).unwrap();
    assert_eq!(c.general.font, "Hack 11");
    assert_eq!(c.general.command, vec!["/usr/bin/bash".to_string()]);
    assert_eq!(c.general.theme, None);

    let c = Config::from_toml_str("[general]\ntheme = \"night\"\n", None).unwrap();
    assert_eq!(c.general.theme, Some("night".to_string()));
    assert_eq!(c.general.font, "Monospace 12");

    let c = Config::from_toml_str("[window]\ntitle = \"Shell\"\n", None).unwrap();
    assert_eq!(c.window.title, "Shell");
    assert!(c.window.scroll_bar);

    let c = Config::from_toml_str("[window]\nscroll_bar = false\n", None).unwrap();
    assert!(!c.window.scroll_bar);
    assert_eq!(c.window.title, "Galactic");

    let c = Config::from_toml_str("[window.padding]\ny = 2\n", None).unwrap();
    assert_eq!(c.window.padding.y, 2);
    assert_eq!(c.window.padding.x, 8);

    let c = Config::from_toml_str("[window.size]\nheight = 401\n", None).unwrap();
    assert_eq!(c.window.size.height, 401);
    assert_eq!(c.window.size.width, 1200);
}

#[test]
fn unknown_top_level_key_is_rejected() {
    let r = Config::from_toml_str("[colors]\nfoo = \"bar\"\n", None);
    assert_eq!(r.unwrap_err(), ConfigError::Deserialize);
    let r = Config::from_toml_str("title = \"misplaced\"\n", None);
    assert_eq!(r.unwrap_err(), ConfigError::Deserialize);
}

#[test]
fn unknown_nested_key_is_rejected() {
    let r = Config::from_toml_str("[general]\nshell = \"/bin/sh\"\n", None);
    assert_eq!(r.unwrap_err(), ConfigError::Deserialize);
    let r = Config::from_toml_str("[window]\nopacity = 3\n", None);
    assert_eq!(r.unwrap_err(), ConfigError::Deserialize);
    let r = Config::from_toml_str("[window.size]\ndepth = 3\n", None);
    assert_eq!(r.unwrap_err(), ConfigError::Deserialize);
    let r = Config::from_toml_str("[window.padding]\nz = 3\n", None);
    assert_eq!(r.unwrap_err(), ConfigError::Deserialize);
}

#[test]
fn type_mismatch_is_rejected() {
    assert_eq!(
        Config::from_toml_str("[window.size]\nwidth = \"wide\"\n", None).unwrap_err(),
        ConfigError::Deserialize
    );
    assert_eq!(
        Config::from_toml_str("[window]\nscroll_bar = \"yes\"\n", None).unwrap_err(),
        ConfigError::Deserialize
    );
    assert_eq!(
        Config::from_toml_str("[general]\nfont = 12\n", None).unwrap_err(),
        ConfigError::Deserialize
    );
    assert_eq!(
        Config::from_toml_str("[general]\ncommand = 7\n", None).unwrap_err(),
        ConfigError::Deserialize
    );
    assert_eq!(
        Config::from_toml_str("general = 5\n", None).unwrap_err(),
        ConfigError::Deserialize
    );
}

#[test]
fn out_of_range_integer_is_rejected() {
    assert_eq!(
        Config::from_toml_str("[window.size]\nwidth = -1\n", None).unwrap_err(),
        ConfigError::Deserialize
    );
    assert_eq!(
        Config::from_toml_str("[window.size]\nwidth = 4294967296\n", None).unwrap_err(),
        ConfigError::Deserialize
    );
    let c = Config::from_toml_str("[window.size]\nwidth = 4294967295\n", None).unwrap();
    assert_eq!(c.window.size.width, u32::MAX);
}

#[test]
fn float_value_is_rejected() {
    assert_eq!(
        Config::from_toml_str("[window.size]\nwidth = 1.5\n", None).unwrap_err(),
        ConfigError::Deserialize
    );
}

#[test]
fn malformed_text_is_rejected() {
    assert_eq!(Config::from_toml_str("[general\n", None).unwrap_err(), ConfigError::Deserialize);
    assert_eq!(Config::from_toml_str("= 3", None).unwrap_err(), ConfigError::Deserialize);
}

#[test]
fn empty_subtables_take_all_defaults() {
    let c = Config::from_toml_str("[general]\n[window]\n", None).unwrap();
    assert_default_general(&c.general);
    assert_default_window(&c.window);
}

#[test]
fn round_trip_keeps_every_field() {
    let text = "[general]\ncommand = [\"/bin/zsh\", \"-l\"]\nfont = \"Hack 11\"\ntheme = \"night\"\n\
                [window]\ntitle = \"Shell\"\nscroll_bar = false\n\
                [window.size]\nwidth = 700\nheight = 500\n\
                [window.padding]\nx = 3\ny = 5\n";
    let c = Config::from_toml_str(text, None).unwrap();
    let rendered = c.to_toml_string().unwrap();
    let c2 = Config::from_toml_str(&rendered, None).unwrap();
    assert_eq!(c2.general.command, c.general.command);
    assert_eq!(c2.general.font, c.general.font);
    assert_eq!(c2.general.theme, c.general.theme);
    assert_eq!(c2.window.title, c.window.title);
    assert_eq!(c2.window.scroll_bar, c.window.scroll_bar);
    assert_eq!(c2.window.size.width, c.window.size.width);
    assert_eq!(c2.window.size.height, c.window.size.height);
    assert_eq!(c2.window.padding.x, c.window.padding.x);
    assert_eq!(c2.window.padding.y, c.window.padding.y);
}

#[test]
fn round_trip_of_default_config() {
    let c = Config::default();
    let rendered = c.to_toml_string().unwrap();
    let c2 = Config::from_toml_str(&rendered, None).unwrap();
    assert_eq!(c2.general.command, c.general.command);
    assert_eq!(c2.general.font, c.general.font);
    assert_eq!(c2.general.theme, None);
    assert_eq!(c2.window.size.width, 1200);
}

#[test]
fn fallback_substitutes_default_on_failure() {
    let failed = Config::from_toml_str("[nope]\n", None);
    let c = Config::or_default(failed, None);
    assert_default_general(&c.general);
    assert_default_window(&c.window);

    let c = Config::or_default(Err(ConfigError::Io), None);
    assert_default_window(&c.window);

    let kept = Config::or_default(Config::from_toml_str("[window]\ntitle = \"Kept\"\n", None), None);
    assert_eq!(kept.window.title, "Kept");
}

#[test]
fn ambient_shell_becomes_the_default_command() {
    let c = Config::from_toml_str("", Some("/bin/fish")).unwrap();
    assert_eq!(c.general.command, vec!["/bin/fish".to_string()]);
    assert_eq!(c.general.font, "Monospace 12");

    let c = Config::from_toml_str("[general]\nfont = \"Hack 11\"\n", Some("/bin/fish")).unwrap();
    assert_eq!(c.general.command, vec!["/bin/fish".to_string()]);

    assert_eq!(
        GeneralConfig::default_command(Some("/bin/fish")),
        vec!["/bin/fish".to_string()]
    );
    let d = Config::default_with_shell(Some("/bin/fish"));
    assert_eq!(d.general.command, vec!["/bin/fish".to_string()]);
    assert_eq!(d.window.title, "Galactic");
}

#[test]
fn configured_command_wins_over_the_ambient_shell() {
    let c = Config::from_toml_str("[general]\ncommand = \"/bin/sh\"\n", Some("/bin/fish"))
        .unwrap();
    assert_eq!(c.general.command, vec!["/bin/sh".to_string()]);
}

#[test]
fn fallback_uses_the_ambient_shell() {
    let c = Config::or_default(Err(ConfigError::Io), Some("/bin/fish"));
    assert_eq!(c.general.command, vec!["/bin/fish".to_string()]);
}
