//! The colours of the theme.

use vstd::prelude::*;
use vstd::string::*;
use vstd::utf8::encode_utf8;

verus! {

/// The colours of the applet, each as `#rrggbb`.
#[derive(Debug, Clone)]
pub struct Theme {
    pub accent_primary: String,
    pub accent_secondary: String,
    pub background: String,
    pub foreground: String,
    pub destructive: String,
}

/// A theme as a mathematical value.
pub struct ThemeView {
    pub accent_primary: Seq<char>,
    pub accent_secondary: Seq<char>,
    pub background: Seq<char>,
    pub foreground: Seq<char>,
    pub destructive: Seq<char>,
}

impl View for Theme {
    type V = ThemeView;

    open spec fn view(&self) -> ThemeView {
        ThemeView {
            accent_primary: self.accent_primary@,
            accent_secondary: self.accent_secondary@,
            background: self.background@,
            foreground: self.foreground@,
            destructive: self.destructive@,
        }
    }
}

/// The colours used where a theme file sets none.
pub open spec fn default_theme() -> ThemeView {
    ThemeView {
        accent_primary: "#8b5cf6"@,
        accent_secondary: "#06b6d4"@,
        background: "#1e1e2e"@,
        foreground: "#d4d4d8"@,
        destructive: "#ef4444"@,
    }
}

impl Default for Theme {
    fn default() -> (t: Theme)
        ensures
            t@ == default_theme(),
    {
        Theme {
            accent_primary: String::from_str("#8b5cf6"),
            accent_secondary: String::from_str("#06b6d4"),
            background: String::from_str("#1e1e2e"),
            foreground: String::from_str("#d4d4d8"),
            destructive: String::from_str("#ef4444"),
        }
    }
}

/// What a theme file sets; what it leaves out is `None`.
#[derive(Debug, Clone)]
pub struct ThemeFile {
    pub accent_primary: Option<String>,
    pub accent_secondary: Option<String>,
    pub background: Option<String>,
    pub foreground: Option<String>,
    pub destructive: Option<String>,
}

/// A colour as set, or the default.
pub open spec fn colour_or(set: Option<String>, default: Seq<char>) -> Seq<char> {
    match set {
        Some(c) => c@,
        None => default,
    }
}

/// The value of a hexadecimal digit given as a byte.
pub open spec fn hex_digit(b: u8) -> Option<u8> {
    if 0x30 <= b <= 0x39 {
        Some((b - 0x30) as u8)
    } else if 0x61 <= b <= 0x66 {
        Some((b - 0x61 + 10) as u8)
    } else if 0x41 <= b <= 0x46 {
        Some((b - 0x41 + 10) as u8)
    } else {
        None
    }
}

/// The number that two bytes spell in base 16: two digits, or a plus sign
/// and one digit. Anything else is no number and counts as 0.
pub open spec fn hex_pair(hi: u8, lo: u8) -> u8 {
    match (hex_digit(hi), hex_digit(lo)) {
        (Some(h), Some(l)) => (16 * h + l) as u8,
        (None, Some(l)) => if hi == 0x2b {
            l
        } else {
            0
        },
        _ => 0,
    }
}

/// The position of the first byte at or after `from` that is no hash
/// sign, or the length of `bytes` when there is none.
pub open spec fn hashes_end(bytes: Seq<u8>, from: int) -> int
    decreases bytes.len() - from,
{
    if from >= bytes.len() {
        bytes.len() as int
    } else if bytes[from] != 0x23 {
        from
    } else {
        hashes_end(bytes, from + 1)
    }
}

/// The red, green and blue parts of a colour given by its bytes: after the
/// leading hash signs there have to be exactly six bytes, two for each
/// part; any other text is black.
pub open spec fn rgb_of(bytes: Seq<u8>) -> (u8, u8, u8) {
    let start = hashes_end(bytes, 0);
    if bytes.len() - start != 6 {
        (0, 0, 0)
    } else {
        (
            hex_pair(bytes[start], bytes[start + 1]),
            hex_pair(bytes[start + 2], bytes[start + 3]),
            hex_pair(bytes[start + 4], bytes[start + 5]),
        )
    }
}

fn read_hex_digit(b: u8) -> (r: Option<u8>)
    ensures
        r == hex_digit(b),
{
    if 0x30 <= b && b <= 0x39 {
        Some(b - 0x30)
    } else if 0x61 <= b && b <= 0x66 {
        Some(b - 0x61 + 10)
    } else if 0x41 <= b && b <= 0x46 {
        Some(b - 0x41 + 10)
    } else {
        None
    }
}

fn read_hex_pair(hi: u8, lo: u8) -> (r: u8)
    ensures
        r == hex_pair(hi, lo),
{
    match read_hex_digit(lo) {
        Some(l) => match read_hex_digit(hi) {
            Some(h) => 16 * h + l,
            None => if hi == 0x2b {
                l
            } else {
                0
            },
        },
        None => 0,
    }
}

impl Theme {
    /// The theme that a file amounts to: the colours it sets, and the
    /// default for every other.
    pub fn from_file(file: ThemeFile) -> (t: Theme)
        ensures
            t@ == (ThemeView {
                accent_primary: colour_or(file.accent_primary, default_theme().accent_primary),
                accent_secondary: colour_or(
                    file.accent_secondary,
                    default_theme().accent_secondary,
                ),
                background: colour_or(file.background, default_theme().background),
                foreground: colour_or(file.foreground, default_theme().foreground),
                destructive: colour_or(file.destructive, default_theme().destructive),
            }),
    {
        let d = Theme::default();
        Theme {
            accent_primary: match file.accent_primary {
                Some(c) => c,
                None => d.accent_primary,
            },
            accent_secondary: match file.accent_secondary {
                Some(c) => c,
                None => d.accent_secondary,
            },
            background: match file.background {
                Some(c) => c,
                None => d.background,
            },
            foreground: match file.foreground {
                Some(c) => c,
                None => d.foreground,
            },
            destructive: match file.destructive {
                Some(c) => c,
                None => d.destructive,
            },
        }
    }

    /// The red, green and blue parts of a colour written as `#rrggbb`.
    pub fn hex_to_rgb(&self, hex: &str) -> (rgb: (u8, u8, u8))
        ensures
            rgb == rgb_of(encode_utf8(hex@)),
    {
        let bytes = hex.as_bytes();
        let mut start: usize = 0;
        while start < bytes.len() && bytes[start] == 0x23
            invariant
                start <= bytes.len(),
                hashes_end(bytes@, 0) == hashes_end(bytes@, start as int),
            decreases bytes.len() - start,
        {
            start += 1;
        }
        if bytes.len() - start != 6 {
            return (0, 0, 0);
        }
        (
            read_hex_pair(bytes[start], bytes[start + 1]),
            read_hex_pair(bytes[start + 2], bytes[start + 3]),
            read_hex_pair(bytes[start + 4], bytes[start + 5]),
        )
    }
}

} // verus!
