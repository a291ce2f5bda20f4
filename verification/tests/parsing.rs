use psst_theme::color::{color_is_safe, parse_channel, parse_color, split_components, extract_parenthesized, Color, ColorValue, Component};
use psst_theme::css::{extract_blocks, normalize_key, strip_block_comments, strip_comments, strip_line_comments};
use psst_theme::font::{parse_font_family, parse_font_size, parse_font_weight, FontFamily, FontWeight};
use psst_theme::overrides::{direct_overrides, font_settings, palette_overrides, ThemeColor};
use psst_theme::theme::{parse_theme_css, theme_css_is_safe, ParsedTheme};

// Floating-point arithmetic that turns the components of `rgb(..)` and
// `hsl(..)` into channels, as the application does with them.

fn float_color(r: f64, g: f64, b: f64, a: f64) -> Color {
    let ch = |x: f64| (x.clamp(0.0, 1.0) * 255.0).round() as u8;
    Color::rgba8(ch(r), ch(g), ch(b), ch(a))
}

fn number(c: &Component) -> f64 {
    c.number.text.parse::<f64>().unwrap()
}

fn channel(c: &Component) -> u8 {
    let val = number(c);
    if c.percent {
        (val.clamp(0.0, 100.0) * 2.55).round() as u8
    } else {
        val.clamp(0.0, 255.0).round() as u8
    }
}

fn unit(c: &Component) -> f64 {
    let val = number(c);
    if c.percent {
        (val / 100.0).clamp(0.0, 1.0)
    } else {
        val.clamp(0.0, 1.0)
    }
}

fn hsl_to_rgb(h: f64, s: f64, l: f64) -> (f64, f64, f64) {
    let c = (1.0 - (2.0 * l - 1.0).abs()) * s;
    let x = c * (1.0 - ((h / 60.0) % 2.0 - 1.0).abs());
    let m = l - c / 2.0;
    let (rp, gp, bp) = match (h / 60.0) as u32 {
        0 => (c, x, 0.0),
        1 => (x, c, 0.0),
        2 => (0.0, c, x),
        3 => (0.0, x, c),
        4 => (x, 0.0, c),
        _ => (c, 0.0, x),
    };
    (rp + m, gp + m, bp + m)
}

fn resolve(v: &ColorValue) -> Color {
    match v {
        ColorValue::Solid(c) => *c,
        ColorValue::Rgb { red, green, blue, alpha } => float_color(
            channel(red) as f64 / 255.0,
            channel(green) as f64 / 255.0,
            channel(blue) as f64 / 255.0,
            alpha.as_ref().map(unit).unwrap_or(1.0),
        ),
        ColorValue::Hsl { hue, saturation, lightness, alpha } => {
            let h = hue.text.parse::<f64>().unwrap() % 360.0;
            let (r, g, b) = hsl_to_rgb(h, unit(saturation), unit(lightness));
            float_color(r, g, b, alpha.as_ref().map(unit).unwrap_or(1.0))
        }
    }
}

fn color(input: &str) -> Option<Color> {
    parse_color(input).as_ref().map(resolve)
}

fn solid(r: u8, g: u8, b: u8, a: u8) -> Option<ColorValue> {
    Some(ColorValue::Solid(Color::rgba8(r, g, b, a)))
}

#[test]
fn test_parse_hex() {
    assert_eq!(parse_color("#fff"), solid(255, 255, 255, 255));
    assert_eq!(parse_color("#000"), solid(0, 0, 0, 255));
    assert_eq!(parse_color("#ff0000"), solid(255, 0, 0, 255));
    assert_eq!(parse_color("#00ff0080"), solid(0, 255, 0, 128));
}

#[test]
fn test_parse_rgb() {
    assert_eq!(color("rgb(255, 128, 0)"), Some(float_color(1.0, 128.0 / 255.0, 0.0, 1.0)));
    assert_eq!(color("rgba(0, 0, 0, 0.5)"), Some(float_color(0.0, 0.0, 0.0, 0.5)));
}

#[test]
fn test_parse_hsl() {
    assert!(parse_color("hsl(0, 100%, 50%)").is_some());
    assert!(parse_color("hsla(120, 100%, 50%, 0.8)").is_some());
}

#[test]
fn test_parse_named() {
    assert_eq!(parse_color("white"), Some(ColorValue::Solid(Color::grey8(255))));
    assert_eq!(parse_color("red"), Some(ColorValue::Solid(Color::rgb8(255, 0, 0))));
}

#[test]
fn test_parse_font_family() {
    assert_eq!(parse_font_family("system-ui"), FontFamily::SystemUi);
    assert_eq!(parse_font_family("monospace"), FontFamily::Monospace);
    assert_eq!(parse_font_family("'Inter', sans-serif"), FontFamily::new_unchecked("Inter"));
    assert_eq!(
        parse_font_family("\"JetBrains Mono\", monospace"),
        FontFamily::new_unchecked("JetBrains Mono")
    );
}

#[test]
fn test_parse_font_weight() {
    assert_eq!(parse_font_weight("bold"), FontWeight(700));
    assert_eq!(parse_font_weight("medium"), FontWeight(500));
    assert_eq!(parse_font_weight("500"), FontWeight::new(500));
    assert_eq!(parse_font_weight("700"), FontWeight(700));
}

fn size(input: &str) -> Option<f64> {
    parse_font_size(input).map(|n| n.text.parse::<f64>().unwrap())
}

#[test]
fn test_parse_font_size() {
    assert_eq!(size("13px"), Some(13.0));
    assert_eq!(size("11pt"), Some(11.0));
    assert_eq!(size("16"), Some(16.0));
}

#[test]
fn test_parse_theme_css_variables() {
    let css = r#"
            /* Custom Theme */
            :root {
                --grey-000: #000000;
                --grey-700: #ffffff;
                --blue-100: rgb(0, 140, 255);
                --window-background-color: #121212; // dark bg
                --font-family: "JetBrains Mono", monospace;
                --font-size: 14px;
                --font-weight: 500;
            }
        "#;
    assert!(theme_css_is_safe(css));
    let theme = parse_theme_css(css);
    assert_eq!(theme.colors.get("grey_000").map(resolve), Some(Color::rgba8(0, 0, 0, 255)));
    assert_eq!(theme.colors.get("grey_700").map(resolve), Some(Color::rgba8(255, 255, 255, 255)));
    assert_eq!(
        theme.colors.get("blue_100").map(resolve),
        Some(float_color(0.0, 140.0 / 255.0, 1.0, 1.0))
    );
    assert_eq!(
        theme.colors.get("window_background_color").map(resolve),
        Some(Color::rgba8(18, 18, 18, 255))
    );
    assert_eq!(theme.font_family.as_deref(), Some("\"JetBrains Mono\", monospace"));
    assert_eq!(theme.font_size_normal.map(|n| n.text.parse::<f64>().unwrap()), Some(14.0));
    assert_eq!(theme.font_weight, Some(FontWeight::new(500)));
}

#[test]
fn hex_with_plus_sign_channels() {
    // `u8::from_str_radix` accepts a leading `+` on each two-digit channel.
    assert_eq!(parse_color("#+f+f+f"), solid(15, 15, 15, 255));
    assert_eq!(parse_color("#+ff"), None);
    assert_eq!(parse_color("#12345"), None);
    assert_eq!(parse_color("#ggg"), None);
    assert_eq!(parse_color("#ABCDEF"), solid(0xab, 0xcd, 0xef, 255));
    assert_eq!(parse_color("  #fA0c  "), solid(0xff, 0xaa, 0x00, 0xcc));
}

#[test]
fn non_ascii_hex_that_slices_cleanly_is_no_color() {
    // two-byte characters at even byte offsets: no slicing panic, no colour
    assert!(theme_css_is_safe("x: #éé12"));
    assert_eq!(parse_color("#éé12"), None);
    // a two-byte character across a channel boundary would panic
    assert!(!theme_css_is_safe("x: #aé"));
    assert!(!theme_css_is_safe("x: #a\u{e9}bcd"));
    // slicing stops at the first channel that does not parse
    assert!(color_is_safe("#éaéa"));
    assert_eq!(parse_color("#éaéa"), None);
    assert!(color_is_safe("#gé"));
    assert_eq!(parse_color("#gé"), None);
    assert!(!color_is_safe("#1é"));
    assert!(!color_is_safe("#12é"));
    assert!(color_is_safe("#zzé"));
    // font properties never parse their value as a colour
    assert!(theme_css_is_safe("font: #aé"));
}

#[test]
fn named_colors_ignore_ascii_case() {
    assert_eq!(parse_color("Transparent"), solid(0, 0, 0, 0));
    assert_eq!(parse_color("GREEN"), solid(0, 128, 0, 255));
    assert_eq!(parse_color("grey"), solid(128, 128, 128, 255));
    assert_eq!(parse_color("gray"), solid(128, 128, 128, 255));
    assert_eq!(parse_color("BLUE"), solid(0, 0, 255, 255));
    assert_eq!(parse_color("black"), solid(0, 0, 0, 255));
    assert_eq!(parse_color("purple"), None);
    assert_eq!(parse_color(""), None);
}

#[test]
fn rgb_components_as_written() {
    let v = parse_color("rgba(10%, 2.5e1, .5 / 50%)").unwrap();
    match v {
        ColorValue::Rgb { red, green, blue, alpha } => {
            assert!(red.percent && red.number.text == "10");
            assert!(!green.percent && green.number.text == "2.5e1");
            assert!(!blue.percent && blue.number.text == ".5");
            let alpha = alpha.unwrap();
            assert!(alpha.percent && alpha.number.text == "50");
        }
        _ => panic!("not an rgb colour"),
    }
    // a fourth component that is no number counts as opaque
    assert_eq!(color("rgb(1, 2, 3, x)"), Some(Color::rgba8(1, 2, 3, 255)));
    assert_eq!(parse_color("rgb(1, 2)"), None);
    assert_eq!(parse_color("rgb(1, 2, x)"), None);
    assert_eq!(parse_color("rgb 1, 2, 3"), None);
    assert_eq!(parse_color("rgb)1, 2, 3("), None);
    // the float grammar: signs, infinities, exponents
    assert_eq!(color("rgb(+inf, -5, NaN)"), Some(Color::rgba8(255, 0, 0, 255)));
    assert_eq!(parse_color("rgb(1e, 2, 3)"), None);
    assert_eq!(parse_color("rgb(., 2, 3)"), None);
    assert_eq!(parse_color("rgb(1.2.3, 2, 3)"), None);
    // 50% is 127 (2.55 is not exact in binary)
    assert_eq!(color("rgb(50%, 0, 0)"), Some(Color::rgba8(127, 0, 0, 255)));
}

#[test]
fn hsl_components() {
    assert_eq!(color("hsl(0, 100%, 50%)"), Some(Color::rgba8(255, 0, 0, 255)));
    assert_eq!(color("hsl(120deg, 100%, 50%)"), Some(Color::rgba8(0, 255, 0, 255)));
    match parse_color("hsl(240degdeg 1 0.5 / 0.25)").unwrap() {
        ColorValue::Hsl { hue, saturation, lightness, alpha } => {
            assert_eq!(hue.text, "240");
            assert!(!saturation.percent && saturation.number.text == "1");
            assert_eq!(lightness.number.text, "0.5");
            assert_eq!(alpha.unwrap().number.text, "0.25");
        }
        _ => panic!("not an hsl colour"),
    }
    assert_eq!(parse_color("hsl(red, 1, 1)"), None);
}

#[test]
fn channel_grammar() {
    assert_eq!(parse_channel("50%").map(|c| (c.percent, c.number.text)), Some((true, "50".to_string())));
    assert_eq!(parse_channel("50%%"), None);
    assert_eq!(parse_channel("12"), Some(Component { percent: false, number: psst_theme::color::Numeral { text: "12".to_string() } }));
    assert_eq!(parse_channel(" 12"), None);
    assert_eq!(parse_channel("infinity"), Some(Component { percent: false, number: psst_theme::color::Numeral { text: "infinity".to_string() } }));
}

#[test]
fn parenthesized_and_components() {
    assert_eq!(extract_parenthesized("rgb(1, 2, 3)"), Some("1, 2, 3"));
    assert_eq!(extract_parenthesized("f(a(b)c)"), Some("a(b)c"));
    assert_eq!(extract_parenthesized(")("), None);
    assert_eq!(extract_parenthesized("no parens"), None);
    assert_eq!(split_components(" 1,2 / 3\t,, 4 "), vec!["1", "2", "3", "4"]);
    assert_eq!(split_components(""), Vec::<&str>::new());
}

#[test]
fn comment_removal() {
    assert_eq!(strip_block_comments("a/* x */b/* y"), "ab");
    assert_eq!(strip_block_comments("a/*/b"), "a");
    assert_eq!(strip_line_comments("a // b\r\nc\n"), "a \nc");
    assert_eq!(strip_line_comments("\n\n"), "\n");
    assert_eq!(strip_line_comments("x\r"), "x\r");
    assert_eq!(strip_comments("a /* // */ b // c\nd"), "a  b \nd");
    assert_eq!(strip_comments(""), "");
}

#[test]
fn blocks_of_a_stylesheet() {
    assert_eq!(extract_blocks("a { x } b { y"), vec![" x ", " y"]);
    assert_eq!(extract_blocks("no braces"), vec!["no braces"]);
    assert_eq!(extract_blocks("{}{}"), vec!["", ""]);
    assert_eq!(extract_blocks("} {"), vec![""]);
}

#[test]
fn property_names() {
    assert_eq!(normalize_key("  --Grey-000 "), "grey_000");
    assert_eq!(normalize_key("text-color"), "text_color");
    assert_eq!(normalize_key("-x"), "_x");
    assert_eq!(normalize_key("----x"), "__x");
}

#[test]
fn font_parsing_edges() {
    assert_eq!(parse_font_weight(" 0 "), FontWeight(1));
    assert_eq!(parse_font_weight("+5000"), FontWeight(1000));
    assert_eq!(parse_font_weight("70000"), FontWeight(400));
    assert_eq!(parse_font_weight("Semi-Bold"), FontWeight(600));
    assert_eq!(parse_font_weight("HEAVY"), FontWeight(900));
    assert_eq!(parse_font_weight("light"), FontWeight(300));
    assert_eq!(parse_font_weight("thin"), FontWeight(100));
    assert_eq!(parse_font_weight("extrabold"), FontWeight(800));
    assert_eq!(parse_font_weight("whatever"), FontWeight(400));
    assert_eq!(parse_font_family("  SANS , serif"), FontFamily::SansSerif);
    assert_eq!(parse_font_family("'serif'"), FontFamily::Serif);
    assert_eq!(parse_font_family("\"'Fira Code'\""), FontFamily::new_unchecked("Fira Code"));
    assert_eq!(parse_font_family(""), FontFamily::new_unchecked(""));
    assert_eq!(size(" 12PXpx "), Some(12.0));
    // `em` is removed before `rem` is looked for, so `rem` sizes leave an `r`
    assert_eq!(size("1.5rem"), None);
    assert_eq!(size("2em"), Some(2.0));
    assert_eq!(size("px"), None);
    assert_eq!(size("12 px"), Some(12.0));
}

#[test]
fn theme_declarations() {
    let css = "--text-color: red; --text-color: #00f; font-size: big; --unknown: nope; : #fff; x:; \
               --ui-font-weight: heavy; --font-weight-medium: 600; font-mono: Fira; font_size_small: 9pt";
    let theme = parse_theme_css(css);
    assert_eq!(theme.colors.len(), 1);
    assert_eq!(theme.colors.get("text_color"), Some(&ColorValue::Solid(Color::rgb8(0, 0, 255))));
    assert_eq!(theme.font_size_normal, None);
    assert_eq!(theme.font_weight, Some(FontWeight(900)));
    assert_eq!(theme.font_weight_medium, Some(FontWeight(600)));
    assert_eq!(theme.font_family_mono.as_deref(), Some("Fira"));
    assert_eq!(theme.font_size_small.map(|n| n.text), Some("9".to_string()));
    let empty = parse_theme_css("");
    assert_eq!(empty.colors.len(), 0);
    assert_eq!(empty.font_family, None);
    let default = ParsedTheme::default();
    assert_eq!(default.colors.len(), 0);
}

#[test]
fn overrides_follow_the_tables() {
    let theme = parse_theme_css(
        ":root { --red: #f00; --grey-100: #111; --cursor-color: white; --text-color: #222; --menu-button-fg-active: #333; --nothing: #444 }",
    );
    let palette: Vec<ThemeColor> = palette_overrides(&theme.colors).into_iter().map(|(t, _)| t).collect();
    assert_eq!(palette, vec![ThemeColor::Grey100, ThemeColor::Red]);
    let direct = direct_overrides(&theme.colors);
    let slots: Vec<ThemeColor> = direct.iter().map(|(t, _)| *t).collect();
    assert_eq!(slots, vec![ThemeColor::TextColor, ThemeColor::CursorColor, ThemeColor::MenuButtonFgActive]);
    assert_eq!(direct[1].1, ColorValue::Solid(Color::grey8(255)));
    let fonts = font_settings(&theme);
    assert_eq!(fonts.family, FontFamily::SystemUi);
    assert_eq!(fonts.mono_family, FontFamily::Monospace);
    assert_eq!(fonts.weight, FontWeight(400));
    assert_eq!(fonts.weight_medium, FontWeight(500));
    let theme = parse_theme_css("font: 'Inter', sans; font-mono: mono; font-weight: 300");
    let fonts = font_settings(&theme);
    assert_eq!(fonts.family, FontFamily::new_unchecked("Inter"));
    assert_eq!(fonts.mono_family, FontFamily::Monospace);
    assert_eq!(fonts.weight, FontWeight(300));
}
