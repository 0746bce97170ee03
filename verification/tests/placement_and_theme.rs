use orbit::config::{default_margin, default_position, Config, ConfigFile, Placement};
use orbit::text::{
    chars_eq, chars_lt, chars_of, contains, decimal, find, find_char_from, is_space, matches_at,
    rfind, starts_with, str_eq, str_lt, strip,
};
use orbit::theme::{Theme, ThemeFile};

fn at(position: &str) -> Config {
    Config { position: position.to_string(), margin_top: 1, margin_right: 2, margin_bottom: 3, margin_left: 4 }
}

fn cs(s: &str) -> Vec<char> {
    s.chars().collect()
}

#[test]
fn defaults() {
    assert_eq!(default_position(), "center");
    assert_eq!(default_margin(), 10);
    let c = Config::default();
    assert_eq!(c.position, "center");
    assert_eq!((c.margin_top, c.margin_right, c.margin_bottom, c.margin_left), (10, 10, 10, 10));
}

#[test]
fn positions_name_grid_cells() {
    assert_eq!(at("top-left").position_tuple(), (0, 0));
    assert_eq!(at("top-center").position_tuple(), (1, 0));
    assert_eq!(at("top-right").position_tuple(), (2, 0));
    assert_eq!(at("center-left").position_tuple(), (0, 1));
    assert_eq!(at("center").position_tuple(), (1, 1));
    assert_eq!(at("center-right").position_tuple(), (2, 1));
    assert_eq!(at("bottom-left").position_tuple(), (0, 2));
    assert_eq!(at("bottom-center").position_tuple(), (1, 2));
    assert_eq!(at("bottom-right").position_tuple(), (2, 2));
}

#[test]
fn unknown_positions_are_the_centre() {
    assert_eq!(at("").position_tuple(), (1, 1));
    assert_eq!(at("Top-Left").position_tuple(), (1, 1));
    assert_eq!(at("top-left ").position_tuple(), (1, 1));
    assert_eq!(at("middle").position_tuple(), (1, 1));
}

#[test]
fn corners_are_anchored_to_two_edges() {
    assert_eq!(at("top-left").placement(), Placement { top: Some(1), bottom: None, left: Some(4), right: None });
    assert_eq!(at("top-right").placement(), Placement { top: Some(1), bottom: None, left: None, right: Some(2) });
    assert_eq!(at("bottom-left").placement(), Placement { top: None, bottom: Some(3), left: Some(4), right: None });
    assert_eq!(at("bottom-right").placement(), Placement { top: None, bottom: Some(3), left: None, right: Some(2) });
}

#[test]
fn sides_are_anchored_to_one_edge_and_the_centre_to_none() {
    assert_eq!(at("top-center").placement(), Placement { top: Some(1), bottom: None, left: None, right: None });
    assert_eq!(at("bottom-center").placement(), Placement { top: None, bottom: Some(3), left: None, right: None });
    assert_eq!(at("center-left").placement(), Placement { top: None, bottom: None, left: Some(4), right: None });
    assert_eq!(at("center-right").placement(), Placement { top: None, bottom: None, left: None, right: Some(2) });
    assert_eq!(at("center").placement(), Placement { top: None, bottom: None, left: None, right: None });
    assert_eq!(at("nowhere").placement(), Placement { top: None, bottom: None, left: None, right: None });
}

#[test]
fn a_file_overrides_what_it_sets() {
    let c = Config::from_file(ConfigFile {
        position: Some("top-right".to_string()),
        margin_top: Some(0),
        margin_right: None,
        margin_bottom: Some(-5),
        margin_left: None,
    });
    assert_eq!(c.position, "top-right");
    assert_eq!((c.margin_top, c.margin_right, c.margin_bottom, c.margin_left), (0, 10, -5, 10));
    let c = Config::from_file(ConfigFile { position: None, margin_top: None, margin_right: None, margin_bottom: None, margin_left: None });
    assert_eq!(c.position, "center");
    assert_eq!(c.margin_left, 10);
}

#[test]
fn a_toggle_may_move_the_window() {
    let c = at("center").with_position("bottom-left");
    assert_eq!(c.position, "bottom-left");
    assert_eq!((c.margin_top, c.margin_right, c.margin_bottom, c.margin_left), (1, 2, 3, 4));
    assert_eq!(c.position_tuple(), (0, 2));
}

#[test]
fn the_default_theme() {
    let t = Theme::default();
    assert_eq!(t.accent_primary, "#8b5cf6");
    assert_eq!(t.accent_secondary, "#06b6d4");
    assert_eq!(t.background, "#1e1e2e");
    assert_eq!(t.foreground, "#d4d4d8");
    assert_eq!(t.destructive, "#ef4444");
}

#[test]
fn a_theme_file_overrides_what_it_sets() {
    let t = Theme::from_file(ThemeFile {
        accent_primary: Some("#ffffff".to_string()),
        accent_secondary: None,
        background: Some("#000000".to_string()),
        foreground: None,
        destructive: None,
    });
    assert_eq!(t.accent_primary, "#ffffff");
    assert_eq!(t.accent_secondary, "#06b6d4");
    assert_eq!(t.background, "#000000");
    assert_eq!(t.foreground, "#d4d4d8");
    assert_eq!(t.destructive, "#ef4444");
}

#[test]
fn colours_split_into_red_green_and_blue() {
    let t = Theme::default();
    assert_eq!(t.hex_to_rgb("#8b5cf6"), (0x8b, 0x5c, 0xf6));
    assert_eq!(t.hex_to_rgb("#000000"), (0, 0, 0));
    assert_eq!(t.hex_to_rgb("#FFFFFF"), (255, 255, 255));
    assert_eq!(t.hex_to_rgb("1e1E2e"), (0x1e, 0x1e, 0x2e));
    assert_eq!(t.hex_to_rgb("##0a0B0c"), (10, 11, 12));
}

#[test]
fn malformed_colours_are_black_or_black_in_part() {
    let t = Theme::default();
    assert_eq!(t.hex_to_rgb(""), (0, 0, 0));
    assert_eq!(t.hex_to_rgb("#"), (0, 0, 0));
    assert_eq!(t.hex_to_rgb("#fff"), (0, 0, 0));
    assert_eq!(t.hex_to_rgb("#1234567"), (0, 0, 0));
    assert_eq!(t.hex_to_rgb("#12345#"), (0x12, 0x34, 0));
    assert_eq!(t.hex_to_rgb("#gg00ff"), (0, 0, 255));
    assert_eq!(t.hex_to_rgb("#+f-f f"), (15, 0, 0));
    assert_eq!(t.hex_to_rgb("#1\u{e9}234"), (0, 0, 0x34));
}

#[test]
fn colour_parts_agree_with_the_standard_parser() {
    let t = Theme::default();
    for hex in ["8b5cf6", "+a0b-c", "zz11Ab", "0+1+2+", " 1 2 3", "++--00"] {
        let part = |i: usize| u8::from_str_radix(&hex[i..i + 2], 16).unwrap_or(0);
        assert_eq!(t.hex_to_rgb(hex), (part(0), part(2), part(4)), "{}", hex);
    }
}

#[test]
fn characters_of_a_text() {
    assert_eq!(chars_of("h\u{e9}y"), vec!['h', '\u{e9}', 'y']);
    assert!(chars_of("").is_empty());
    assert!(str_eq("abc", "abc"));
    assert!(!str_eq("abc", "abd"));
    assert!(!str_eq("abc", "ab"));
    assert!(chars_eq(&cs(""), &cs("")));
}

#[test]
fn searching_in_texts() {
    let s = cs("ab: cd: ef");
    assert!(starts_with(&s, &cs("ab")));
    assert!(starts_with(&s, &cs("")));
    assert!(!starts_with(&s, &cs("b")));
    assert!(!starts_with(&cs("a"), &cs("ab")));
    assert!(matches_at(&s, &cs(": "), 2));
    assert!(!matches_at(&s, &cs(": "), 3));
    assert!(!matches_at(&s, &cs("ef"), 9));
    assert_eq!(find(&s, &cs(": ")), Some(2));
    assert_eq!(rfind(&s, &cs(": ")), Some(6));
    assert_eq!(find(&s, &cs("zz")), None);
    assert_eq!(rfind(&s, &cs("zz")), None);
    assert_eq!(find(&s, &cs("")), Some(0));
    assert_eq!(rfind(&s, &cs("")), Some(10));
    assert_eq!(find(&cs("ab"), &cs("abc")), None);
    assert!(contains(&s, &cs("cd")));
    assert!(!contains(&s, &cs("dc")));
    assert_eq!(find_char_from(&s, ':', 0), 2);
    assert_eq!(find_char_from(&s, ':', 3), 6);
    assert_eq!(find_char_from(&s, ':', 7), 10);
    assert_eq!(find_char_from(&s, 'x', 0), 10);
}

#[test]
fn white_space_is_what_the_standard_library_takes_for_it() {
    for code in 0..=0x10ffffu32 {
        if let Some(c) = char::from_u32(code) {
            assert_eq!(is_space(c), c.is_whitespace(), "U+{:04X}", code);
        }
    }
}

#[test]
fn stripping_agrees_with_the_standard_trim() {
    let samples = [
        "", " ", "  \t\n", "a", " a", "a ", " a b ", "\u{a0}x\u{2003}", "\u{3000}\u{1680}y z\u{85}",
        "\u{200b} a \u{200b}", "\r\n line \r\n", "\u{feff}bom ", " \u{e9}t\u{e9}\u{2028}",
    ];
    for s in samples {
        assert_eq!(strip(s), s.trim(), "{:?}", s);
    }
    assert_eq!(strip("  Home \n"), "Home");
    assert_eq!(strip("Ho me"), "Ho me");
}

#[test]
fn texts_are_ordered_as_strings_are() {
    let samples = ["", "a", "A", "ab", "abc", "b", "Zulu", "alpha", "\u{e9}", "e", "z\u{e9}", "zz"];
    for a in samples {
        for b in samples {
            assert_eq!(str_lt(a, b), a < b, "{:?} < {:?}", a, b);
            assert_eq!(chars_lt(&cs(a), &cs(b)), a < b);
        }
    }
}

#[test]
fn numbers_are_written_in_decimal() {
    for n in [0u32, 1, 9, 10, 11, 99, 100, 101, 255, 1000, 65_535, 4_294_967_295] {
        assert_eq!(decimal(n), n.to_string());
    }
}
