//! Which theme colours and fonts a parsed stylesheet overrides.
use vstd::prelude::*;
use crate::color::{ColorModel, ColorValue};
use crate::font::{FontFamily, FontFamilyModel, FontWeight, font_family_of, parse_font_family_chars};
use crate::text::to_chars;
use crate::theme::{ColorMap, ParsedTheme, opt_text};

verus! {

/// A colour of the application theme that a stylesheet can set.
#[derive(Clone, Copy, Debug, PartialEq, Eq, Structural)]
pub enum ThemeColor {
    Grey000,
    Grey100,
    Grey200,
    Grey300,
    Grey400,
    Grey500,
    Grey600,
    Grey700,
    Blue100,
    Blue200,
    Red,
    LinkHotColor,
    LinkActiveColor,
    LinkColdColor,
    WindowBackgroundColor,
    TextColor,
    IconColor,
    PlaceholderColor,
    PrimaryLight,
    PrimaryDark,
    BackgroundLight,
    BackgroundDark,
    ForegroundLight,
    ForegroundDark,
    ButtonLight,
    ButtonDark,
    BorderLight,
    BorderDark,
    SelectedTextBackgroundColor,
    SelectionTextColor,
    CursorColor,
    ScrollbarColor,
    ScrollbarBorderColor,
    MenuButtonBgActive,
    MenuButtonBgInactive,
    MenuButtonFgActive,
    MenuButtonFgInactive,
}

/// The property name under which a stylesheet sets the colour `t`.
pub open spec fn css_name(t: ThemeColor) -> Seq<char> {
    match t {
        ThemeColor::Grey000 => "grey_000"@,
        ThemeColor::Grey100 => "grey_100"@,
        ThemeColor::Grey200 => "grey_200"@,
        ThemeColor::Grey300 => "grey_300"@,
        ThemeColor::Grey400 => "grey_400"@,
        ThemeColor::Grey500 => "grey_500"@,
        ThemeColor::Grey600 => "grey_600"@,
        ThemeColor::Grey700 => "grey_700"@,
        ThemeColor::Blue100 => "blue_100"@,
        ThemeColor::Blue200 => "blue_200"@,
        ThemeColor::Red => "red"@,
        ThemeColor::LinkHotColor => "link_hot_color"@,
        ThemeColor::LinkActiveColor => "link_active_color"@,
        ThemeColor::LinkColdColor => "link_cold_color"@,
        ThemeColor::WindowBackgroundColor => "window_background_color"@,
        ThemeColor::TextColor => "text_color"@,
        ThemeColor::IconColor => "icon_color"@,
        ThemeColor::PlaceholderColor => "placeholder_color"@,
        ThemeColor::PrimaryLight => "primary_light"@,
        ThemeColor::PrimaryDark => "primary_dark"@,
        ThemeColor::BackgroundLight => "background_light"@,
        ThemeColor::BackgroundDark => "background_dark"@,
        ThemeColor::ForegroundLight => "foreground_light"@,
        ThemeColor::ForegroundDark => "foreground_dark"@,
        ThemeColor::ButtonLight => "button_light"@,
        ThemeColor::ButtonDark => "button_dark"@,
        ThemeColor::BorderLight => "border_light"@,
        ThemeColor::BorderDark => "border_dark"@,
        ThemeColor::SelectedTextBackgroundColor => "selected_text_background_color"@,
        ThemeColor::SelectionTextColor => "selection_text_color"@,
        ThemeColor::CursorColor => "cursor_color"@,
        ThemeColor::ScrollbarColor => "scrollbar_color"@,
        ThemeColor::ScrollbarBorderColor => "scrollbar_border_color"@,
        ThemeColor::MenuButtonBgActive => "menu_button_bg_active"@,
        ThemeColor::MenuButtonBgInactive => "menu_button_bg_inactive"@,
        ThemeColor::MenuButtonFgActive => "menu_button_fg_active"@,
        ThemeColor::MenuButtonFgInactive => "menu_button_fg_inactive"@,
    }
}

/// The property name under which a stylesheet sets the colour `t`.
pub fn css_name_of(t: ThemeColor) -> (r: &'static str)
    ensures
        r@ == css_name(t),
{
    match t {
        ThemeColor::Grey000 => "grey_000",
        ThemeColor::Grey100 => "grey_100",
        ThemeColor::Grey200 => "grey_200",
        ThemeColor::Grey300 => "grey_300",
        ThemeColor::Grey400 => "grey_400",
        ThemeColor::Grey500 => "grey_500",
        ThemeColor::Grey600 => "grey_600",
        ThemeColor::Grey700 => "grey_700",
        ThemeColor::Blue100 => "blue_100",
        ThemeColor::Blue200 => "blue_200",
        ThemeColor::Red => "red",
        ThemeColor::LinkHotColor => "link_hot_color",
        ThemeColor::LinkActiveColor => "link_active_color",
        ThemeColor::LinkColdColor => "link_cold_color",
        ThemeColor::WindowBackgroundColor => "window_background_color",
        ThemeColor::TextColor => "text_color",
        ThemeColor::IconColor => "icon_color",
        ThemeColor::PlaceholderColor => "placeholder_color",
        ThemeColor::PrimaryLight => "primary_light",
        ThemeColor::PrimaryDark => "primary_dark",
        ThemeColor::BackgroundLight => "background_light",
        ThemeColor::BackgroundDark => "background_dark",
        ThemeColor::ForegroundLight => "foreground_light",
        ThemeColor::ForegroundDark => "foreground_dark",
        ThemeColor::ButtonLight => "button_light",
        ThemeColor::ButtonDark => "button_dark",
        ThemeColor::BorderLight => "border_light",
        ThemeColor::BorderDark => "border_dark",
        ThemeColor::SelectedTextBackgroundColor => "selected_text_background_color",
        ThemeColor::SelectionTextColor => "selection_text_color",
        ThemeColor::CursorColor => "cursor_color",
        ThemeColor::ScrollbarColor => "scrollbar_color",
        ThemeColor::ScrollbarBorderColor => "scrollbar_border_color",
        ThemeColor::MenuButtonBgActive => "menu_button_bg_active",
        ThemeColor::MenuButtonBgInactive => "menu_button_bg_inactive",
        ThemeColor::MenuButtonFgActive => "menu_button_fg_active",
        ThemeColor::MenuButtonFgInactive => "menu_button_fg_inactive",
    }
}

/// The palette colours, in the order in which they are applied.
pub open spec fn palette_slots() -> Seq<ThemeColor> {
    seq![
        ThemeColor::Grey000,
        ThemeColor::Grey100,
        ThemeColor::Grey200,
        ThemeColor::Grey300,
        ThemeColor::Grey400,
        ThemeColor::Grey500,
        ThemeColor::Grey600,
        ThemeColor::Grey700,
        ThemeColor::Blue100,
        ThemeColor::Blue200,
        ThemeColor::Red,
        ThemeColor::LinkHotColor,
        ThemeColor::LinkActiveColor,
        ThemeColor::LinkColdColor,
    ]
}

fn palette_slots_list() -> (r: Vec<ThemeColor>)
    ensures
        r@ == palette_slots(),
{
    let r = vec![
        ThemeColor::Grey000,
        ThemeColor::Grey100,
        ThemeColor::Grey200,
        ThemeColor::Grey300,
        ThemeColor::Grey400,
        ThemeColor::Grey500,
        ThemeColor::Grey600,
        ThemeColor::Grey700,
        ThemeColor::Blue100,
        ThemeColor::Blue200,
        ThemeColor::Red,
        ThemeColor::LinkHotColor,
        ThemeColor::LinkActiveColor,
        ThemeColor::LinkColdColor,
    ];
    assert(r@ =~= palette_slots());
    r
}

/// The colours of window elements, in the order in which they are applied.
pub open spec fn element_slots() -> Seq<ThemeColor> {
    seq![
        ThemeColor::WindowBackgroundColor,
        ThemeColor::TextColor,
        ThemeColor::IconColor,
        ThemeColor::PlaceholderColor,
        ThemeColor::PrimaryLight,
        ThemeColor::PrimaryDark,
        ThemeColor::BackgroundLight,
        ThemeColor::BackgroundDark,
        ThemeColor::ForegroundLight,
        ThemeColor::ForegroundDark,
    ]
}

fn element_slots_list() -> (r: Vec<ThemeColor>)
    ensures
        r@ == element_slots(),
{
    let r = vec![
        ThemeColor::WindowBackgroundColor,
        ThemeColor::TextColor,
        ThemeColor::IconColor,
        ThemeColor::PlaceholderColor,
        ThemeColor::PrimaryLight,
        ThemeColor::PrimaryDark,
        ThemeColor::BackgroundLight,
        ThemeColor::BackgroundDark,
        ThemeColor::ForegroundLight,
        ThemeColor::ForegroundDark,
    ];
    assert(r@ =~= element_slots());
    r
}

/// The colours of buttons, borders, selection, cursor and scroll bars, in the order in which they are applied.
pub open spec fn button_slots() -> Seq<ThemeColor> {
    seq![
        ThemeColor::ButtonLight,
        ThemeColor::ButtonDark,
        ThemeColor::BorderLight,
        ThemeColor::BorderDark,
        ThemeColor::SelectedTextBackgroundColor,
        ThemeColor::SelectionTextColor,
        ThemeColor::CursorColor,
        ThemeColor::ScrollbarColor,
        ThemeColor::ScrollbarBorderColor,
    ]
}

fn button_slots_list() -> (r: Vec<ThemeColor>)
    ensures
        r@ == button_slots(),
{
    let r = vec![
        ThemeColor::ButtonLight,
        ThemeColor::ButtonDark,
        ThemeColor::BorderLight,
        ThemeColor::BorderDark,
        ThemeColor::SelectedTextBackgroundColor,
        ThemeColor::SelectionTextColor,
        ThemeColor::CursorColor,
        ThemeColor::ScrollbarColor,
        ThemeColor::ScrollbarBorderColor,
    ];
    assert(r@ =~= button_slots());
    r
}

/// The colours of menu buttons, in the order in which they are applied.
pub open spec fn menu_slots() -> Seq<ThemeColor> {
    seq![
        ThemeColor::MenuButtonBgActive,
        ThemeColor::MenuButtonBgInactive,
        ThemeColor::MenuButtonFgActive,
        ThemeColor::MenuButtonFgInactive,
    ]
}

fn menu_slots_list() -> (r: Vec<ThemeColor>)
    ensures
        r@ == menu_slots(),
{
    let r = vec![
        ThemeColor::MenuButtonBgActive,
        ThemeColor::MenuButtonBgInactive,
        ThemeColor::MenuButtonFgActive,
        ThemeColor::MenuButtonFgInactive,
    ];
    assert(r@ =~= menu_slots());
    r
}

/// The colours among `slots` that `colors` sets, each with its value, in
/// the order of `slots`.
pub open spec fn overrides(slots: Seq<ThemeColor>, colors: Map<Seq<char>, ColorModel>) -> Seq<
    (ThemeColor, ColorModel),
>
    decreases slots.len(),
{
    if slots.len() == 0 {
        seq![]
    } else {
        let earlier = overrides(slots.drop_last(), colors);
        let t = slots.last();
        if colors.contains_key(css_name(t)) {
            earlier.push((t, colors[css_name(t)]))
        } else {
            earlier
        }
    }
}

/// What a list of overrides says, each colour by its model.
pub open spec fn overrides_view(v: Seq<(ThemeColor, ColorValue)>) -> Seq<(ThemeColor, ColorModel)> {
    v.map_values(|p: (ThemeColor, ColorValue)| (p.0, p.1@))
}

/// The colours among `slots` that `colors` sets.
fn overrides_for(slots: &Vec<ThemeColor>, colors: &ColorMap, out: &mut Vec<(ThemeColor, ColorValue)>)
    requires
        colors.wf(),
    ensures
        overrides_view(final(out)@) == overrides_view(old(out)@) + overrides(slots@, colors@),
{
    let mut i: usize = 0;
    assert(slots@.take(0) =~= Seq::<ThemeColor>::empty());
    assert(overrides_view(out@) =~= overrides_view(old(out)@) + overrides(slots@.take(0), colors@));
    while i < slots.len()
        invariant
            colors.wf(),
            i <= slots.len(),
            overrides_view(out@) == overrides_view(old(out)@) + overrides(
                slots@.take(i as int),
                colors@,
            ),
        decreases slots.len() - i,
    {
        let t = slots[i];
        let ghost before = out@;
        proof {
            assert(slots@.take(i + 1).drop_last() =~= slots@.take(i as int));
            assert(slots@.take(i + 1).last() == t);
        }
        match colors.get(css_name_of(t)) {
            Some(v) => {
                out.push((t, v.duplicate()));
                assert(overrides_view(out@) =~= overrides_view(before).push((t, colors@[css_name(t)])));
            },
            None => {},
        }
        i += 1;
    }
    assert(slots@.take(slots.len() as int) =~= slots@);
}

/// The palette colours that `colors` sets, each with its value.
pub fn palette_overrides(colors: &ColorMap) -> (r: Vec<(ThemeColor, ColorValue)>)
    requires
        colors.wf(),
    ensures
        overrides_view(r@) == overrides(palette_slots(), colors@),
{
    let mut r: Vec<(ThemeColor, ColorValue)> = Vec::new();
    assert(overrides_view(r@) =~= Seq::<(ThemeColor, ColorModel)>::empty());
    overrides_for(&palette_slots_list(), colors, &mut r);
    assert(overrides_view(r@) =~= overrides(palette_slots(), colors@));
    r
}

/// The colours of window elements, then of buttons, then of menus, that
/// `colors` sets, each with its value.
pub fn direct_overrides(colors: &ColorMap) -> (r: Vec<(ThemeColor, ColorValue)>)
    requires
        colors.wf(),
    ensures
        overrides_view(r@) == overrides(element_slots(), colors@) + overrides(button_slots(), colors@)
            + overrides(menu_slots(), colors@),
{
    let mut r: Vec<(ThemeColor, ColorValue)> = Vec::new();
    assert(overrides_view(r@) =~= Seq::<(ThemeColor, ColorModel)>::empty());
    overrides_for(&element_slots_list(), colors, &mut r);
    overrides_for(&button_slots_list(), colors, &mut r);
    overrides_for(&menu_slots_list(), colors, &mut r);
    assert(overrides_view(r@) =~= overrides(element_slots(), colors@) + overrides(button_slots(), colors@)
        + overrides(menu_slots(), colors@));
    r
}

/// The fonts a theme asks for.
#[derive(Debug)]
pub struct FontSettings {
    pub family: FontFamily,
    pub mono_family: FontFamily,
    pub weight: FontWeight,
    pub weight_medium: FontWeight,
}

/// The family a theme value asks for, or `default` where there is none.
pub open spec fn family_or(value: Option<Seq<char>>, default: FontFamilyModel) -> FontFamilyModel {
    match value {
        Some(s) => font_family_of(s),
        None => default,
    }
}

/// The fonts that `parsed` asks for: its families (the system UI font and
/// the monospace font where it names none) and its weights (regular and
/// medium where it names none).
pub fn font_settings(parsed: &ParsedTheme) -> (r: FontSettings)
    ensures
        r.family@ == family_or(opt_text(parsed.font_family), FontFamilyModel::SystemUi),
        r.mono_family@ == family_or(opt_text(parsed.font_family_mono), FontFamilyModel::Monospace),
        r.weight == match parsed.font_weight {
            Some(w) => w,
            None => FontWeight(400),
        },
        r.weight_medium == match parsed.font_weight_medium {
            Some(w) => w,
            None => FontWeight(500),
        },
{
    let family = match &parsed.font_family {
        Some(s) => parse_font_family_chars(&to_chars(s.as_str())),
        None => FontFamily::SystemUi,
    };
    let mono_family = match &parsed.font_family_mono {
        Some(s) => parse_font_family_chars(&to_chars(s.as_str())),
        None => FontFamily::Monospace,
    };
    let weight = match parsed.font_weight {
        Some(w) => w,
        None => FontWeight(400),
    };
    let weight_medium = match parsed.font_weight_medium {
        Some(w) => w,
        None => FontWeight(500),
    };
    FontSettings { family, mono_family, weight, weight_medium }
}

} // verus!
