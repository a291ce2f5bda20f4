use psst_theme::color::{parse_color, split_components, Color, ColorValue};
use psst_theme::css::{extract_blocks, normalize_key, strip_comments};
use psst_theme::font::{parse_font_weight, FontWeight};
use psst_theme::theme::parse_theme_css;

#[test]
fn surrounding_space_does_not_change_a_color() {
    assert_eq!(parse_color(" \t#fff\n"), parse_color("#fff"));
    assert_eq!(parse_color("  red "), parse_color("red"));
}

#[test]
fn short_hex_is_doubled_long_hex() {
    assert_eq!(parse_color("#abc"), parse_color("#aabbcc"));
    assert_eq!(parse_color("#abcd"), parse_color("#aabbccdd"));
    assert_eq!(parse_color("#1F9"), Some(ColorValue::Solid(Color::rgb8(0x11, 0xff, 0x99))));
}

#[test]
fn hex_without_alpha_is_opaque() {
    match parse_color("#123456") {
        Some(ColorValue::Solid(c)) => assert_eq!(c.a, 255),
        other => panic!("unexpected {:?}", other),
    }
    match parse_color("#123") {
        Some(ColorValue::Solid(c)) => assert_eq!(c.a, 255),
        other => panic!("unexpected {:?}", other),
    }
}

#[test]
fn font_weights_stay_in_range() {
    for input in ["0", "1", "999", "1000", "1001", "65535", "65536", "bold", "", "-3"] {
        let FontWeight(w) = parse_font_weight(input);
        assert!((1..=1000).contains(&w), "{} gave {}", input, w);
    }
}

#[test]
fn normalized_keys_have_no_dash_or_capital() {
    for input in ["--Grey-000", "  A-B-C  ", "--", "---X", "Text_Color"] {
        let key = normalize_key(input);
        assert!(!key.contains('-') && !key.chars().any(|c| c.is_ascii_uppercase()), "{}", key);
    }
}

#[test]
fn components_are_clean() {
    for part in split_components(" ,1 2,/3 ,\u{a0}4 ") {
        assert!(!part.is_empty());
        assert_eq!(part.trim(), part);
        assert!(!part.contains(',') && !part.contains('/'));
    }
}

#[test]
fn blocks_hold_no_close_brace() {
    for block in extract_blocks("a { b } } c { d { e } f") {
        assert!(!block.contains('}'), "{}", block);
    }
}

#[test]
fn text_without_braces_is_one_block() {
    assert_eq!(extract_blocks("a: b; } c: d"), vec!["a: b; } c: d"]);
}

#[test]
fn comment_free_line_is_unchanged() {
    assert_eq!(strip_comments("--x: #fff; --y: 3 / 4"), "--x: #fff; --y: 3 / 4");
}

#[test]
fn font_properties_are_not_colors() {
    let theme = parse_theme_css("font: red; font-mono: blue; --text-size: #fff; : #000");
    assert_eq!(theme.colors.len(), 0);
    assert_eq!(theme.font_family.as_deref(), Some("red"));
}

#[test]
fn last_color_declaration_wins() {
    let theme = parse_theme_css("a { --x: red; --X: #00f } b { --y: #111 ; --x: nope }");
    assert_eq!(theme.colors.get("x"), Some(&ColorValue::Solid(Color::rgb8(0, 0, 255))));
    assert_eq!(theme.colors.len(), 2);
}

#[test]
fn single_declaration_stylesheet() {
    let theme = parse_theme_css("  --Link-Hot-Color :  #abc  ");
    assert_eq!(theme.colors.len(), 1);
    assert_eq!(theme.colors.get("link_hot_color"), Some(&ColorValue::Solid(Color::rgb8(0xaa, 0xbb, 0xcc))));
}
