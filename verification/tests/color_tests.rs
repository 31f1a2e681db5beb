use galactic::color::{validate_color, validate_palette, InvalidPalette, PALETTE_SIZE};

fn palette_of(entries: &[&str]) -> Vec<String> {
    entries.iter().map(|s| s.to_string()).collect()
}

fn valid_palette() -> Vec<String> {
    palette_of(&[
        "#241F31", "#C01C28", "#2EC27E", "#F5C211", "#1E78E4", "#9841BB", "#0AB9DC", "#C0BFBC",
        "#5E5C64", "#ED333B", "#57E389", "#F8E45C", "#51A1FF", "#C061CB", "#4FD2FD", "#F6F5F4",
    ])
}

#[test]
fn color_accepts_hex_and_preserves_case() {
    assert_eq!(validate_color("#aBc012").unwrap(), "#aBc012");
    assert_eq!(validate_color("#000000").unwrap(), "#000000");
    assert_eq!(validate_color("#FFFFFF").unwrap(), "#FFFFFF");
    assert_eq!(validate_color("#ffffff").unwrap(), "#ffffff");
}

#[test]
fn color_rejects_wrong_length() {
    assert!(validate_color("").is_err());
    assert!(validate_color("#").is_err());
    assert!(validate_color("#12345").is_err());
    assert!(validate_color("#1234567").is_err());
}

#[test]
fn color_rejects_missing_hash() {
    assert!(validate_color("1234567").is_err());
    assert!(validate_color("x123456").is_err());
}

#[test]
fn color_rejects_non_hex_digits() {
    assert!(validate_color("#12345g").is_err());
    assert!(validate_color("#12345G").is_err());
    assert!(validate_color("#12 456").is_err());
    assert!(validate_color("##12345").is_err());
}

#[test]
fn color_rejects_non_ascii() {
    assert!(validate_color("#αβγδεζ").is_err());
    assert!(validate_color("#fffffüü").is_err());
}

#[test]
fn color_error_carries_input() {
    let e = validate_color("#12345g").unwrap_err();
    assert_eq!(e.color, "#12345g");
}

#[test]
fn palette_accepts_sixteen_valid_colors() {
    let p = valid_palette();
    let out = validate_palette(&p).unwrap();
    assert_eq!(out, p);
}

#[test]
fn palette_rejects_fifteen_entries() {
    let mut p = valid_palette();
    p.pop();
    assert_eq!(p.len(), 15);
    match validate_palette(&p).unwrap_err() {
        InvalidPalette::WrongSize { expected, actual } => {
            assert_eq!(expected, PALETTE_SIZE);
            assert_eq!(actual, 15);
        },
        other => panic!("expected WrongSize, got {other:?}"),
    }
}

#[test]
fn palette_rejects_seventeen_entries() {
    let mut p = valid_palette();
    p.push("#000000".to_string());
    match validate_palette(&p).unwrap_err() {
        InvalidPalette::WrongSize { expected, actual } => {
            assert_eq!(expected, PALETTE_SIZE);
            assert_eq!(actual, 17);
        },
        other => panic!("expected WrongSize, got {other:?}"),
    }
}

#[test]
fn palette_wrong_size_wins_over_bad_content() {
    // length is checked first, regardless of content validity
    let p = palette_of(&["zz", "##", "#12345g"]);
    match validate_palette(&p).unwrap_err() {
        InvalidPalette::WrongSize { expected, actual } => {
            assert_eq!(expected, PALETTE_SIZE);
            assert_eq!(actual, 3);
        },
        other => panic!("expected WrongSize, got {other:?}"),
    }
}

#[test]
fn palette_reports_first_invalid_entry_with_index() {
    let mut p = valid_palette();
    p[3] = "#F5C21".to_string();
    p[9] = "not-a-color".to_string();
    match validate_palette(&p).unwrap_err() {
        InvalidPalette::InvalidColor { entry, index } => {
            assert_eq!(index, 3);
            assert_eq!(entry, "#F5C21");
        },
        other => panic!("expected InvalidColor, got {other:?}"),
    }
}
