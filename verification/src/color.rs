//! Validation of hex color strings and 16-slot terminal palettes.

use vstd::prelude::*;

verus! {

/// Number of slots in a terminal palette (ANSI colors 0-15).
pub const PALETTE_SIZE: usize = 16;

/// A hexadecimal digit, either case.
pub open spec fn is_hex_digit(c: char) -> bool {
    ('0' <= c && c <= '9') || ('a' <= c && c <= 'f') || ('A' <= c && c <= 'F')
}

/// A color string: `#` followed by exactly six hexadecimal digits.
pub open spec fn is_hex_color(s: Seq<char>) -> bool {
    &&& s.len() == 7
    &&& s[0] == '#'
    &&& forall|i: int| 1 <= i < 7 ==> is_hex_digit(#[trigger] s[i])
}

/// The string that failed color validation.
#[derive(Debug)]
pub struct InvalidColor {
    pub color: String,
}

/// Why a palette failed validation.
#[derive(Debug)]
pub enum InvalidPalette {
    /// The palette does not have exactly `expected` entries.
    WrongSize { expected: usize, actual: usize },
    /// The first entry that is not a valid color, and its position.
    InvalidColor { entry: String, index: usize },
}

fn is_hex_digit_exec(c: char) -> (r: bool)
    ensures
        r == is_hex_digit(c),
{
    ('0' <= c && c <= '9') || ('a' <= c && c <= 'f') || ('A' <= c && c <= 'F')
}

/// Accepts exactly the strings `#` + six hex digits, returning the input
/// unchanged (case is preserved); rejects everything else.
pub fn validate_color(s: &str) -> (r: Result<String, InvalidColor>)
    ensures
        is_hex_color(s@) ==> (r matches Ok(c) && c@ == s@),
        !is_hex_color(s@) ==> (r matches Err(e) && e.color@ == s@),
{
    let len = s.unicode_len();
    if len != 7 {
        return Err(InvalidColor { color: s.to_owned() });
    }
    if s.get_char(0) != '#' {
        return Err(InvalidColor { color: s.to_owned() });
    }
    let mut i: usize = 1;
    while i < 7
        invariant
            1 <= i <= 7,
            s@.len() == 7,
            forall|j: int| 1 <= j < i ==> is_hex_digit(#[trigger] s@[j]),
        decreases 7 - i,
    {
        if !is_hex_digit_exec(s.get_char(i)) {
            return Err(InvalidColor { color: s.to_owned() });
        }
        i = i + 1;
    }
    Ok(s.to_owned())
}

/// Accepts a sequence of exactly 16 valid color strings, returned unchanged.
/// A sequence of any other length is rejected as `WrongSize` regardless of
/// its contents; otherwise the first invalid entry is reported with its index.
pub fn validate_palette(colors: &Vec<String>) -> (r: Result<Vec<String>, InvalidPalette>)
    ensures
        colors@.len() != PALETTE_SIZE ==> (r matches Err(e) && e == (InvalidPalette::WrongSize {
            expected: PALETTE_SIZE,
            actual: colors@.len() as usize,
        })),
        colors@.len() == PALETTE_SIZE && (forall|i: int|
            0 <= i < colors@.len() ==> is_hex_color(#[trigger] colors@[i]@)) ==> (r matches Ok(out)
            && out@.len() == colors@.len() && (forall|i: int|
            0 <= i < colors@.len() ==> #[trigger] out@[i]@ == colors@[i]@)),
        colors@.len() == PALETTE_SIZE && !(forall|i: int|
            0 <= i < colors@.len() ==> is_hex_color(#[trigger] colors@[i]@)) ==> (r matches Err(
            InvalidPalette::InvalidColor { entry, index },
        ) && 0 <= index < colors@.len() && !is_hex_color(colors@[index as int]@) && entry@
            == colors@[index as int]@ && (forall|j: int|
            0 <= j < index ==> is_hex_color(#[trigger] colors@[j]@))),
{
    if colors.len() != PALETTE_SIZE {
        return Err(InvalidPalette::WrongSize { expected: PALETTE_SIZE, actual: colors.len() });
    }
    let mut out: Vec<String> = Vec::new();
    let mut i: usize = 0;
    while i < colors.len()
        invariant
            0 <= i <= colors@.len(),
            colors@.len() == PALETTE_SIZE,
            out@.len() == i,
            forall|j: int| 0 <= j < i ==> is_hex_color(#[trigger] colors@[j]@),
            forall|j: int| 0 <= j < i ==> #[trigger] out@[j]@ == colors@[j]@,
        decreases colors@.len() - i,
    {
        match validate_color(colors[i].as_str()) {
            Ok(c) => {
                out.push(c);
            },
            Err(e) => {
                return Err(InvalidPalette::InvalidColor { entry: e.color, index: i });
            },
        }
        i = i + 1;
    }
    Ok(out)
}

} // verus!
