//! What each name of the parsers' tables stands for, over all inputs.
use vstd::prelude::*;
use crate::color::{
    Color, ColorModel, all_ascii, color_of, component_of, components, hex_color, hex_digit,
    hue_of, is_digit, lemma_hex_digit_small, lemma_radix16_two, paren_inner, starts_with3,
    without_plus,
};
use crate::css::normalized_key;
use crate::font::{
    FontFamilyModel, FontWeight, first_entry, font_family_of, font_size_of, font_weight_of,
    parse_u16_spec, unquote_end, unquote_start,
};
use crate::overrides::{
    ThemeColor, button_slots, css_name, element_slots, menu_slots, overrides, palette_slots,
};
use crate::text::{is_ws, lower, trim, trim_end, trim_start};
use crate::theme::{FontField, ThemeModel, apply_declaration, declaration_parts, font_field_of};

verus! {


/// The property names of the font settings are non-empty and pairwise
/// different.
proof fn lemma_font_keys_differ()
    ensures
        "font_family"@.len() > 0,
        "ui_font_family"@.len() > 0,
        "font"@.len() > 0,
        "font_family_mono"@.len() > 0,
        "ui_font_mono_family"@.len() > 0,
        "font_mono"@.len() > 0,
        "font_size_small"@.len() > 0,
        "text_size_small"@.len() > 0,
        "font_size"@.len() > 0,
        "font_size_normal"@.len() > 0,
        "text_size_normal"@.len() > 0,
        "text_size"@.len() > 0,
        "font_size_large"@.len() > 0,
        "text_size_large"@.len() > 0,
        "font_weight"@.len() > 0,
        "ui_font_weight"@.len() > 0,
        "font_weight_medium"@.len() > 0,
        "ui_font_weight_medium"@.len() > 0,
        "font_family"@ != "ui_font_family"@,
        "font_family"@ != "font"@,
        "font_family"@ != "font_family_mono"@,
        "font_family"@ != "ui_font_mono_family"@,
        "font_family"@ != "font_mono"@,
        "font_family"@ != "font_size_small"@,
        "font_family"@ != "text_size_small"@,
        "font_family"@ != "font_size"@,
        "font_family"@ != "font_size_normal"@,
        "font_family"@ != "text_size_normal"@,
        "font_family"@ != "text_size"@,
        "font_family"@ != "font_size_large"@,
        "font_family"@ != "text_size_large"@,
        "font_family"@ != "font_weight"@,
        "font_family"@ != "ui_font_weight"@,
        "font_family"@ != "font_weight_medium"@,
        "font_family"@ != "ui_font_weight_medium"@,
        "ui_font_family"@ != "font"@,
        "ui_font_family"@ != "font_family_mono"@,
        "ui_font_family"@ != "ui_font_mono_family"@,
        "ui_font_family"@ != "font_mono"@,
        "ui_font_family"@ != "font_size_small"@,
        "ui_font_family"@ != "text_size_small"@,
        "ui_font_family"@ != "font_size"@,
        "ui_font_family"@ != "font_size_normal"@,
        "ui_font_family"@ != "text_size_normal"@,
        "ui_font_family"@ != "text_size"@,
        "ui_font_family"@ != "font_size_large"@,
        "ui_font_family"@ != "text_size_large"@,
        "ui_font_family"@ != "font_weight"@,
        "ui_font_family"@ != "ui_font_weight"@,
        "ui_font_family"@ != "font_weight_medium"@,
        "ui_font_family"@ != "ui_font_weight_medium"@,
        "font"@ != "font_family_mono"@,
        "font"@ != "ui_font_mono_family"@,
        "font"@ != "font_mono"@,
        "font"@ != "font_size_small"@,
        "font"@ != "text_size_small"@,
        "font"@ != "font_size"@,
        "font"@ != "font_size_normal"@,
        "font"@ != "text_size_normal"@,
        "font"@ != "text_size"@,
        "font"@ != "font_size_large"@,
        "font"@ != "text_size_large"@,
        "font"@ != "font_weight"@,
        "font"@ != "ui_font_weight"@,
        "font"@ != "font_weight_medium"@,
        "font"@ != "ui_font_weight_medium"@,
        "font_family_mono"@ != "ui_font_mono_family"@,
        "font_family_mono"@ != "font_mono"@,
        "font_family_mono"@ != "font_size_small"@,
        "font_family_mono"@ != "text_size_small"@,
        "font_family_mono"@ != "font_size"@,
        "font_family_mono"@ != "font_size_normal"@,
        "font_family_mono"@ != "text_size_normal"@,
        "font_family_mono"@ != "text_size"@,
        "font_family_mono"@ != "font_size_large"@,
        "font_family_mono"@ != "text_size_large"@,
        "font_family_mono"@ != "font_weight"@,
        "font_family_mono"@ != "ui_font_weight"@,
        "font_family_mono"@ != "font_weight_medium"@,
        "font_family_mono"@ != "ui_font_weight_medium"@,
        "ui_font_mono_family"@ != "font_mono"@,
        "ui_font_mono_family"@ != "font_size_small"@,
        "ui_font_mono_family"@ != "text_size_small"@,
        "ui_font_mono_family"@ != "font_size"@,
        "ui_font_mono_family"@ != "font_size_normal"@,
        "ui_font_mono_family"@ != "text_size_normal"@,
        "ui_font_mono_family"@ != "text_size"@,
        "ui_font_mono_family"@ != "font_size_large"@,
        "ui_font_mono_family"@ != "text_size_large"@,
        "ui_font_mono_family"@ != "font_weight"@,
        "ui_font_mono_family"@ != "ui_font_weight"@,
        "ui_font_mono_family"@ != "font_weight_medium"@,
        "ui_font_mono_family"@ != "ui_font_weight_medium"@,
        "font_mono"@ != "font_size_small"@,
        "font_mono"@ != "text_size_small"@,
        "font_mono"@ != "font_size"@,
        "font_mono"@ != "font_size_normal"@,
        "font_mono"@ != "text_size_normal"@,
        "font_mono"@ != "text_size"@,
        "font_mono"@ != "font_size_large"@,
        "font_mono"@ != "text_size_large"@,
        "font_mono"@ != "font_weight"@,
        "font_mono"@ != "ui_font_weight"@,
        "font_mono"@ != "font_weight_medium"@,
        "font_mono"@ != "ui_font_weight_medium"@,
        "font_size_small"@ != "text_size_small"@,
        "font_size_small"@ != "font_size"@,
        "font_size_small"@ != "font_size_normal"@,
        "font_size_small"@ != "text_size_normal"@,
        "font_size_small"@ != "text_size"@,
        "font_size_small"@ != "font_size_large"@,
        "font_size_small"@ != "text_size_large"@,
        "font_size_small"@ != "font_weight"@,
        "font_size_small"@ != "ui_font_weight"@,
        "font_size_small"@ != "font_weight_medium"@,
        "font_size_small"@ != "ui_font_weight_medium"@,
        "text_size_small"@ != "font_size"@,
        "text_size_small"@ != "font_size_normal"@,
        "text_size_small"@ != "text_size_normal"@,
        "text_size_small"@ != "text_size"@,
        "text_size_small"@ != "font_size_large"@,
        "text_size_small"@ != "text_size_large"@,
        "text_size_small"@ != "font_weight"@,
        "text_size_small"@ != "ui_font_weight"@,
        "text_size_small"@ != "font_weight_medium"@,
        "text_size_small"@ != "ui_font_weight_medium"@,
        "font_size"@ != "font_size_normal"@,
        "font_size"@ != "text_size_normal"@,
        "font_size"@ != "text_size"@,
        "font_size"@ != "font_size_large"@,
        "font_size"@ != "text_size_large"@,
        "font_size"@ != "font_weight"@,
        "font_size"@ != "ui_font_weight"@,
        "font_size"@ != "font_weight_medium"@,
        "font_size"@ != "ui_font_weight_medium"@,
        "font_size_normal"@ != "text_size_normal"@,
        "font_size_normal"@ != "text_size"@,
        "font_size_normal"@ != "font_size_large"@,
        "font_size_normal"@ != "text_size_large"@,
        "font_size_normal"@ != "font_weight"@,
        "font_size_normal"@ != "ui_font_weight"@,
        "font_size_normal"@ != "font_weight_medium"@,
        "font_size_normal"@ != "ui_font_weight_medium"@,
        "text_size_normal"@ != "text_size"@,
        "text_size_normal"@ != "font_size_large"@,
        "text_size_normal"@ != "text_size_large"@,
        "text_size_normal"@ != "font_weight"@,
        "text_size_normal"@ != "ui_font_weight"@,
        "text_size_normal"@ != "font_weight_medium"@,
        "text_size_normal"@ != "ui_font_weight_medium"@,
        "text_size"@ != "font_size_large"@,
        "text_size"@ != "text_size_large"@,
        "text_size"@ != "font_weight"@,
        "text_size"@ != "ui_font_weight"@,
        "text_size"@ != "font_weight_medium"@,
        "text_size"@ != "ui_font_weight_medium"@,
        "font_size_large"@ != "text_size_large"@,
        "font_size_large"@ != "font_weight"@,
        "font_size_large"@ != "ui_font_weight"@,
        "font_size_large"@ != "font_weight_medium"@,
        "font_size_large"@ != "ui_font_weight_medium"@,
        "text_size_large"@ != "font_weight"@,
        "text_size_large"@ != "ui_font_weight"@,
        "text_size_large"@ != "font_weight_medium"@,
        "text_size_large"@ != "ui_font_weight_medium"@,
        "font_weight"@ != "ui_font_weight"@,
        "font_weight"@ != "font_weight_medium"@,
        "font_weight"@ != "ui_font_weight_medium"@,
        "ui_font_weight"@ != "font_weight_medium"@,
        "ui_font_weight"@ != "ui_font_weight_medium"@,
        "font_weight_medium"@ != "ui_font_weight_medium"@,
{
    reveal_strlit("font_family");
    reveal_strlit("ui_font_family");
    reveal_strlit("font");
    reveal_strlit("font_family_mono");
    reveal_strlit("ui_font_mono_family");
    reveal_strlit("font_mono");
    reveal_strlit("font_size_small");
    reveal_strlit("text_size_small");
    reveal_strlit("font_size");
    reveal_strlit("font_size_normal");
    reveal_strlit("text_size_normal");
    reveal_strlit("text_size");
    reveal_strlit("font_size_large");
    reveal_strlit("text_size_large");
    reveal_strlit("font_weight");
    reveal_strlit("ui_font_weight");
    reveal_strlit("font_weight_medium");
    reveal_strlit("ui_font_weight_medium");
    assert("font_family"@.len() == 11);
    assert("ui_font_family"@.len() == 14);
    assert("font"@.len() == 4);
    assert("font_family_mono"@.len() == 16);
    assert("ui_font_mono_family"@.len() == 19);
    assert("font_mono"@.len() == 9);
    assert("font_size_small"@.len() == 15);
    assert("text_size_small"@.len() == 15);
    assert("font_size"@.len() == 9);
    assert("font_size_normal"@.len() == 16);
    assert("text_size_normal"@.len() == 16);
    assert("text_size"@.len() == 9);
    assert("font_size_large"@.len() == 15);
    assert("text_size_large"@.len() == 15);
    assert("font_weight"@.len() == 11);
    assert("ui_font_weight"@.len() == 14);
    assert("font_weight_medium"@.len() == 18);
    assert("ui_font_weight_medium"@.len() == 21);
    assert("font_family"@[5] != "font_weight"@[5]);
    assert("ui_font_family"@[8] != "ui_font_weight"@[8]);
    assert("font_family_mono"@[5] != "font_size_normal"@[5]);
    assert("font_family_mono"@[0] != "text_size_normal"@[0]);
    assert("font_mono"@[5] != "font_size"@[5]);
    assert("font_mono"@[0] != "text_size"@[0]);
    assert("font_size_small"@[0] != "text_size_small"@[0]);
    assert("font_size_small"@[10] != "font_size_large"@[10]);
    assert("font_size_small"@[0] != "text_size_large"@[0]);
    assert("text_size_small"@[0] != "font_size_large"@[0]);
    assert("text_size_small"@[10] != "text_size_large"@[10]);
    assert("font_size"@[0] != "text_size"@[0]);
    assert("font_size_normal"@[0] != "text_size_normal"@[0]);
    assert("font_size_large"@[0] != "text_size_large"@[0]);
}

/// A declaration with a non-empty value whose property names a font
/// setting sets that setting, and only that setting, to what its value
/// spells: `font_size_large`/`text_size_large` the large size,
/// `font_size_small`/`text_size_small` the small size, `font_size`,
/// `font_size_normal`, `text_size_normal`, `text_size` the normal size,
/// `font_family`/`ui_font_family`/`font` the family (as written),
/// `font_family_mono`/`ui_font_mono_family`/`font_mono` the monospace family,
/// `font_weight`/`ui_font_weight` the weight and
/// `font_weight_medium`/`ui_font_weight_medium` the medium weight.
pub proof fn law_font_declaration_sets_its_setting(t: ThemeModel, line: Seq<char>)
    requires
        declaration_parts(line) matches Some((key, val)) && val.len() > 0,
    ensures
        ({
            let (key, val) = declaration_parts(line).unwrap();
            let r = apply_declaration(t, line);
            &&& (key == "font_size_large"@ || key == "text_size_large"@) ==> r == (ThemeModel {
                font_size_large: font_size_of(val),
                ..t
            })
            &&& (key == "font_size_small"@ || key == "text_size_small"@) ==> r == (ThemeModel {
                font_size_small: font_size_of(val),
                ..t
            })
            &&& (key == "font_size"@ || key == "font_size_normal"@ || key == "text_size_normal"@
                || key == "text_size"@) ==> r == (ThemeModel {
                font_size_normal: font_size_of(val),
                ..t
            })
            &&& (key == "font_family"@ || key == "ui_font_family"@ || key == "font"@) ==> r == (
            ThemeModel { font_family: Some(val), ..t })
            &&& (key == "font_family_mono"@ || key == "ui_font_mono_family"@ || key
                == "font_mono"@) ==> r == (ThemeModel { font_family_mono: Some(val), ..t })
            &&& (key == "font_weight"@ || key == "ui_font_weight"@) ==> r == (ThemeModel {
                font_weight: Some(font_weight_of(val)),
                ..t
            })
            &&& (key == "font_weight_medium"@ || key == "ui_font_weight_medium"@) ==> r == (
            ThemeModel { font_weight_medium: Some(font_weight_of(val)), ..t })
        }),
{
    lemma_font_keys_differ();
    let (key, val) = declaration_parts(line).unwrap();
    if key == "font_size_large"@ || key == "text_size_large"@ {
        assert(font_field_of(key) == Some(FontField::SizeLarge));
    }
    if key == "font_size_small"@ || key == "text_size_small"@ {
        assert(font_field_of(key) == Some(FontField::SizeSmall));
    }
    if key == "font_size"@ || key == "font_size_normal"@ || key == "text_size_normal"@ || key
        == "text_size"@ {
        assert(font_field_of(key) == Some(FontField::SizeNormal));
    }
    if key == "font_family"@ || key == "ui_font_family"@ || key == "font"@ {
        assert(font_field_of(key) == Some(FontField::Family));
    }
    if key == "font_family_mono"@ || key == "ui_font_mono_family"@ || key == "font_mono"@ {
        assert(font_field_of(key) == Some(FontField::FamilyMono));
    }
    if key == "font_weight"@ || key == "ui_font_weight"@ {
        assert(font_field_of(key) == Some(FontField::Weight));
    }
    if key == "font_weight_medium"@ || key == "ui_font_weight_medium"@ {
        assert(font_field_of(key) == Some(FontField::WeightMedium));
    }
}

/// An `rgb(..)` or `rgba(..)` value (the name makes no difference) whose
/// first three components are numbers or percentages has those as its red,
/// green and blue; its alpha is the fourth component read as a number or
/// percentage, and opaque (`None`) only where there is no fourth component
/// or it is no number.
pub proof fn law_rgb_components(input: Seq<char>)
    requires
        ({
            let s = trim(input);
            &&& starts_with3(s, 'r', 'g', 'b')
            &&& paren_inner(s) is Some
            &&& components(paren_inner(s).unwrap()).len() >= 3
            &&& forall|i: int|
                0 <= i < 3 ==> component_of(#[trigger] components(paren_inner(s).unwrap())[i]) is Some
        }),
    ensures
        ({
            let parts = components(paren_inner(trim(input)).unwrap());
            &&& color_of(input) matches Some(ColorModel::Rgb { red, green, blue, alpha })
            &&& Some(red) == component_of(parts[0])
            &&& Some(green) == component_of(parts[1])
            &&& Some(blue) == component_of(parts[2])
            &&& parts.len() >= 4 ==> alpha == component_of(parts[3])
            &&& parts.len() == 3 ==> alpha is None
        }),
{
    let parts = components(paren_inner(trim(input)).unwrap());
    assert(component_of(parts[0]) is Some);
    assert(component_of(parts[1]) is Some);
    assert(component_of(parts[2]) is Some);
}

/// An `hsl(..)` or `hsla(..)` value whose first component is a hue and whose
/// next two are numbers or percentages has those as its hue, saturation and
/// lightness; its alpha is the fourth component read as a number or
/// percentage, and opaque (`None`) only where there is no fourth component
/// or it is no number.
pub proof fn law_hsl_components(input: Seq<char>)
    requires
        ({
            let s = trim(input);
            &&& starts_with3(s, 'h', 's', 'l')
            &&& paren_inner(s) is Some
            &&& components(paren_inner(s).unwrap()).len() >= 3
            &&& hue_of(components(paren_inner(s).unwrap())[0]) is Some
            &&& component_of(components(paren_inner(s).unwrap())[1]) is Some
            &&& component_of(components(paren_inner(s).unwrap())[2]) is Some
        }),
    ensures
        ({
            let parts = components(paren_inner(trim(input)).unwrap());
            &&& color_of(input) matches Some(ColorModel::Hsl { hue, saturation, lightness, alpha })
            &&& Some(hue) == hue_of(parts[0])
            &&& Some(saturation) == component_of(parts[1])
            &&& Some(lightness) == component_of(parts[2])
            &&& parts.len() >= 4 ==> alpha == component_of(parts[3])
            &&& parts.len() == 3 ==> alpha is None
        }),
{
}

/// The generic family names are pairwise different.
proof fn lemma_family_names_differ()
    ensures
        "system-ui"@.len() == 9,
        "system"@.len() == 6,
        "monospace"@.len() == 9,
        "mono"@.len() == 4,
        "sans-serif"@.len() == 10,
        "sans"@.len() == 4,
        "serif"@.len() == 5,
        "system-ui"@ != "system"@,
        "system-ui"@ != "monospace"@,
        "system-ui"@ != "mono"@,
        "system-ui"@ != "sans-serif"@,
        "system-ui"@ != "sans"@,
        "system-ui"@ != "serif"@,
        "system"@ != "monospace"@,
        "system"@ != "mono"@,
        "system"@ != "sans-serif"@,
        "system"@ != "sans"@,
        "system"@ != "serif"@,
        "monospace"@ != "mono"@,
        "monospace"@ != "sans-serif"@,
        "monospace"@ != "sans"@,
        "monospace"@ != "serif"@,
        "mono"@ != "sans-serif"@,
        "mono"@ != "sans"@,
        "mono"@ != "serif"@,
        "sans-serif"@ != "sans"@,
        "sans-serif"@ != "serif"@,
        "sans"@ != "serif"@,
{
    reveal_strlit("system-ui");
    reveal_strlit("system");
    reveal_strlit("monospace");
    reveal_strlit("mono");
    reveal_strlit("sans-serif");
    reveal_strlit("sans");
    reveal_strlit("serif");
    assert("system-ui"@.len() == 9);
    assert("system"@.len() == 6);
    assert("monospace"@.len() == 9);
    assert("mono"@.len() == 4);
    assert("sans-serif"@.len() == 10);
    assert("sans"@.len() == 4);
    assert("serif"@.len() == 5);
    assert("system-ui"@[0] != "monospace"@[0]);
    assert("mono"@[0] != "sans"@[0]);
}

/// The generic family names denote the generic families, in any ASCII
/// case: `sans-serif`/`sans` the sans-serif family, `serif` the serif
/// family, `system-ui`/`system` the system UI font, `monospace`/`mono` the
/// monospace family; any other name (the first entry, trimmed and unquoted)
/// denotes the family of that name, as written.
pub proof fn law_generic_family_names(input: Seq<char>)
    ensures
        ({
            let name = trim(unquote_end(unquote_start(trim(first_entry(input)))));
            let l = lower(name);
            let f = font_family_of(input);
            &&& (l == "sans-serif"@ || l == "sans"@) ==> f == FontFamilyModel::SansSerif
            &&& l == "serif"@ ==> f == FontFamilyModel::Serif
            &&& (l == "system-ui"@ || l == "system"@) ==> f == FontFamilyModel::SystemUi
            &&& (l == "monospace"@ || l == "mono"@) ==> f == FontFamilyModel::Monospace
            &&& !(l == "sans-serif"@ || l == "sans"@ || l == "serif"@ || l == "system-ui"@ || l
                == "system"@ || l == "monospace"@ || l == "mono"@) ==> f == FontFamilyModel::Named(
                name,
            )
        }),
{
    lemma_family_names_differ();
}


/// The names of the weight table are pairwise different.
proof fn lemma_weight_names_differ()
    ensures
        "thin"@.len() == 4,
        "100"@.len() == 3,
        "light"@.len() == 5,
        "300"@.len() == 3,
        "regular"@.len() == 7,
        "normal"@.len() == 6,
        "400"@.len() == 3,
        "medium"@.len() == 6,
        "500"@.len() == 3,
        "semi-bold"@.len() == 9,
        "semibold"@.len() == 8,
        "600"@.len() == 3,
        "bold"@.len() == 4,
        "700"@.len() == 3,
        "extra-bold"@.len() == 10,
        "extrabold"@.len() == 9,
        "800"@.len() == 3,
        "black"@.len() == 5,
        "heavy"@.len() == 5,
        "900"@.len() == 3,
        "thin"@ != "100"@,
        "thin"@ != "light"@,
        "thin"@ != "300"@,
        "thin"@ != "regular"@,
        "thin"@ != "normal"@,
        "thin"@ != "400"@,
        "thin"@ != "medium"@,
        "thin"@ != "500"@,
        "thin"@ != "semi-bold"@,
        "thin"@ != "semibold"@,
        "thin"@ != "600"@,
        "thin"@ != "bold"@,
        "thin"@ != "700"@,
        "thin"@ != "extra-bold"@,
        "thin"@ != "extrabold"@,
        "thin"@ != "800"@,
        "thin"@ != "black"@,
        "thin"@ != "heavy"@,
        "thin"@ != "900"@,
        "100"@ != "light"@,
        "100"@ != "300"@,
        "100"@ != "regular"@,
        "100"@ != "normal"@,
        "100"@ != "400"@,
        "100"@ != "medium"@,
        "100"@ != "500"@,
        "100"@ != "semi-bold"@,
        "100"@ != "semibold"@,
        "100"@ != "600"@,
        "100"@ != "bold"@,
        "100"@ != "700"@,
        "100"@ != "extra-bold"@,
        "100"@ != "extrabold"@,
        "100"@ != "800"@,
        "100"@ != "black"@,
        "100"@ != "heavy"@,
        "100"@ != "900"@,
        "light"@ != "300"@,
        "light"@ != "regular"@,
        "light"@ != "normal"@,
        "light"@ != "400"@,
        "light"@ != "medium"@,
        "light"@ != "500"@,
        "light"@ != "semi-bold"@,
        "light"@ != "semibold"@,
        "light"@ != "600"@,
        "light"@ != "bold"@,
        "light"@ != "700"@,
        "light"@ != "extra-bold"@,
        "light"@ != "extrabold"@,
        "light"@ != "800"@,
        "light"@ != "black"@,
        "light"@ != "heavy"@,
        "light"@ != "900"@,
        "300"@ != "regular"@,
        "300"@ != "normal"@,
        "300"@ != "400"@,
        "300"@ != "medium"@,
        "300"@ != "500"@,
        "300"@ != "semi-bold"@,
        "300"@ != "semibold"@,
        "300"@ != "600"@,
        "300"@ != "bold"@,
        "300"@ != "700"@,
        "300"@ != "extra-bold"@,
        "300"@ != "extrabold"@,
        "300"@ != "800"@,
        "300"@ != "black"@,
        "300"@ != "heavy"@,
        "300"@ != "900"@,
        "regular"@ != "normal"@,
        "regular"@ != "400"@,
        "regular"@ != "medium"@,
        "regular"@ != "500"@,
        "regular"@ != "semi-bold"@,
        "regular"@ != "semibold"@,
        "regular"@ != "600"@,
        "regular"@ != "bold"@,
        "regular"@ != "700"@,
        "regular"@ != "extra-bold"@,
        "regular"@ != "extrabold"@,
        "regular"@ != "800"@,
        "regular"@ != "black"@,
        "regular"@ != "heavy"@,
        "regular"@ != "900"@,
        "normal"@ != "400"@,
        "normal"@ != "medium"@,
        "normal"@ != "500"@,
        "normal"@ != "semi-bold"@,
        "normal"@ != "semibold"@,
        "normal"@ != "600"@,
        "normal"@ != "bold"@,
        "normal"@ != "700"@,
        "normal"@ != "extra-bold"@,
        "normal"@ != "extrabold"@,
        "normal"@ != "800"@,
        "normal"@ != "black"@,
        "normal"@ != "heavy"@,
        "normal"@ != "900"@,
        "400"@ != "medium"@,
        "400"@ != "500"@,
        "400"@ != "semi-bold"@,
        "400"@ != "semibold"@,
        "400"@ != "600"@,
        "400"@ != "bold"@,
        "400"@ != "700"@,
        "400"@ != "extra-bold"@,
        "400"@ != "extrabold"@,
        "400"@ != "800"@,
        "400"@ != "black"@,
        "400"@ != "heavy"@,
        "400"@ != "900"@,
        "medium"@ != "500"@,
        "medium"@ != "semi-bold"@,
        "medium"@ != "semibold"@,
        "medium"@ != "600"@,
        "medium"@ != "bold"@,
        "medium"@ != "700"@,
        "medium"@ != "extra-bold"@,
        "medium"@ != "extrabold"@,
        "medium"@ != "800"@,
        "medium"@ != "black"@,
        "medium"@ != "heavy"@,
        "medium"@ != "900"@,
        "500"@ != "semi-bold"@,
        "500"@ != "semibold"@,
        "500"@ != "600"@,
        "500"@ != "bold"@,
        "500"@ != "700"@,
        "500"@ != "extra-bold"@,
        "500"@ != "extrabold"@,
        "500"@ != "800"@,
        "500"@ != "black"@,
        "500"@ != "heavy"@,
        "500"@ != "900"@,
        "semi-bold"@ != "semibold"@,
        "semi-bold"@ != "600"@,
        "semi-bold"@ != "bold"@,
        "semi-bold"@ != "700"@,
        "semi-bold"@ != "extra-bold"@,
        "semi-bold"@ != "extrabold"@,
        "semi-bold"@ != "800"@,
        "semi-bold"@ != "black"@,
        "semi-bold"@ != "heavy"@,
        "semi-bold"@ != "900"@,
        "semibold"@ != "600"@,
        "semibold"@ != "bold"@,
        "semibold"@ != "700"@,
        "semibold"@ != "extra-bold"@,
        "semibold"@ != "extrabold"@,
        "semibold"@ != "800"@,
        "semibold"@ != "black"@,
        "semibold"@ != "heavy"@,
        "semibold"@ != "900"@,
        "600"@ != "bold"@,
        "600"@ != "700"@,
        "600"@ != "extra-bold"@,
        "600"@ != "extrabold"@,
        "600"@ != "800"@,
        "600"@ != "black"@,
        "600"@ != "heavy"@,
        "600"@ != "900"@,
        "bold"@ != "700"@,
        "bold"@ != "extra-bold"@,
        "bold"@ != "extrabold"@,
        "bold"@ != "800"@,
        "bold"@ != "black"@,
        "bold"@ != "heavy"@,
        "bold"@ != "900"@,
        "700"@ != "extra-bold"@,
        "700"@ != "extrabold"@,
        "700"@ != "800"@,
        "700"@ != "black"@,
        "700"@ != "heavy"@,
        "700"@ != "900"@,
        "extra-bold"@ != "extrabold"@,
        "extra-bold"@ != "800"@,
        "extra-bold"@ != "black"@,
        "extra-bold"@ != "heavy"@,
        "extra-bold"@ != "900"@,
        "extrabold"@ != "800"@,
        "extrabold"@ != "black"@,
        "extrabold"@ != "heavy"@,
        "extrabold"@ != "900"@,
        "800"@ != "black"@,
        "800"@ != "heavy"@,
        "800"@ != "900"@,
        "black"@ != "heavy"@,
        "black"@ != "900"@,
        "heavy"@ != "900"@,
{
    reveal_strlit("thin");
    reveal_strlit("100");
    reveal_strlit("light");
    reveal_strlit("300");
    reveal_strlit("regular");
    reveal_strlit("normal");
    reveal_strlit("400");
    reveal_strlit("medium");
    reveal_strlit("500");
    reveal_strlit("semi-bold");
    reveal_strlit("semibold");
    reveal_strlit("600");
    reveal_strlit("bold");
    reveal_strlit("700");
    reveal_strlit("extra-bold");
    reveal_strlit("extrabold");
    reveal_strlit("800");
    reveal_strlit("black");
    reveal_strlit("heavy");
    reveal_strlit("900");
    assert("thin"@.len() == 4);
    assert("100"@.len() == 3);
    assert("light"@.len() == 5);
    assert("300"@.len() == 3);
    assert("regular"@.len() == 7);
    assert("normal"@.len() == 6);
    assert("400"@.len() == 3);
    assert("medium"@.len() == 6);
    assert("500"@.len() == 3);
    assert("semi-bold"@.len() == 9);
    assert("semibold"@.len() == 8);
    assert("600"@.len() == 3);
    assert("bold"@.len() == 4);
    assert("700"@.len() == 3);
    assert("extra-bold"@.len() == 10);
    assert("extrabold"@.len() == 9);
    assert("800"@.len() == 3);
    assert("black"@.len() == 5);
    assert("heavy"@.len() == 5);
    assert("900"@.len() == 3);
    assert("thin"@[0] != "bold"@[0]);
    assert("100"@[0] != "300"@[0]);
    assert("100"@[0] != "400"@[0]);
    assert("100"@[0] != "500"@[0]);
    assert("100"@[0] != "600"@[0]);
    assert("100"@[0] != "700"@[0]);
    assert("100"@[0] != "800"@[0]);
    assert("100"@[0] != "900"@[0]);
    assert("light"@[0] != "black"@[0]);
    assert("light"@[0] != "heavy"@[0]);
    assert("300"@[0] != "400"@[0]);
    assert("300"@[0] != "500"@[0]);
    assert("300"@[0] != "600"@[0]);
    assert("300"@[0] != "700"@[0]);
    assert("300"@[0] != "800"@[0]);
    assert("300"@[0] != "900"@[0]);
    assert("normal"@[0] != "medium"@[0]);
    assert("400"@[0] != "500"@[0]);
    assert("400"@[0] != "600"@[0]);
    assert("400"@[0] != "700"@[0]);
    assert("400"@[0] != "800"@[0]);
    assert("400"@[0] != "900"@[0]);
    assert("500"@[0] != "600"@[0]);
    assert("500"@[0] != "700"@[0]);
    assert("500"@[0] != "800"@[0]);
    assert("500"@[0] != "900"@[0]);
    assert("semi-bold"@[0] != "extrabold"@[0]);
    assert("600"@[0] != "700"@[0]);
    assert("600"@[0] != "800"@[0]);
    assert("600"@[0] != "900"@[0]);
    assert("700"@[0] != "800"@[0]);
    assert("700"@[0] != "900"@[0]);
    assert("800"@[0] != "900"@[0]);
    assert("black"@[0] != "heavy"@[0]);
}

/// Text that starts with a letter is no `u16`.
proof fn lemma_letter_is_no_number(s: Seq<char>)
    requires
        s.len() > 0,
        'a' <= s[0] <= 'z',
    ensures
        parse_u16_spec(s) is None,
{
    assert(without_plus(s) == s);
    assert(!is_digit(s[0]));
}

/// Text that is one of the weight names, letters or digits.
pub open spec fn is_weight_name(s: Seq<char>) -> bool {
    s == "thin"@
        || s == "100"@
        || s == "light"@
        || s == "300"@
        || s == "regular"@
        || s == "normal"@
        || s == "400"@
        || s == "medium"@
        || s == "500"@
        || s == "semi-bold"@
        || s == "semibold"@
        || s == "600"@
        || s == "bold"@
        || s == "700"@
        || s == "extra-bold"@
        || s == "extrabold"@
        || s == "800"@
        || s == "black"@
        || s == "heavy"@
        || s == "900"@
}

/// The weight a value asks for, trimmed and in any ASCII case: a number is
/// clamped into `1..=1000`; each name of the table gives its weight (`thin`
/// 100, `light` 300, `regular`/`normal` 400, `medium` 500,
/// `semi-bold`/`semibold` 600, `bold` 700, `extra-bold`/`extrabold` 800,
/// `black`/`heavy` 900); text that is neither gives 400, and 400 comes only
/// from `regular`, `normal`, the number 400 or such other text.
pub proof fn law_weight_names(input: Seq<char>)
    ensures
        ({
            let s = lower(trim(input));
            let w = font_weight_of(input);
            &&& s == "thin"@ ==> w == FontWeight(100)
            &&& s == "light"@ ==> w == FontWeight(300)
            &&& s == "regular"@ ==> w == FontWeight(400)
            &&& s == "normal"@ ==> w == FontWeight(400)
            &&& s == "medium"@ ==> w == FontWeight(500)
            &&& s == "semi-bold"@ ==> w == FontWeight(600)
            &&& s == "semibold"@ ==> w == FontWeight(600)
            &&& s == "bold"@ ==> w == FontWeight(700)
            &&& s == "extra-bold"@ ==> w == FontWeight(800)
            &&& s == "extrabold"@ ==> w == FontWeight(800)
            &&& s == "black"@ ==> w == FontWeight(900)
            &&& s == "heavy"@ ==> w == FontWeight(900)
            &&& parse_u16_spec(s) matches Some(n) ==> w.0 == if n < 1 {
                1
            } else if n > 1000 {
                1000
            } else {
                n
            }
            &&& (parse_u16_spec(s) is None && !is_weight_name(s)) ==> w == FontWeight(400)
            &&& w == FontWeight(400) ==> {
                ||| s == "regular"@
                ||| s == "normal"@
                ||| s == "400"@
                ||| parse_u16_spec(s) == Some(400u16)
                ||| (parse_u16_spec(s) is None && !is_weight_name(s))
            }
        }),
{
    lemma_weight_names_differ();
    reveal_strlit("thin");
    reveal_strlit("light");
    reveal_strlit("regular");
    reveal_strlit("normal");
    reveal_strlit("medium");
    reveal_strlit("semi-bold");
    reveal_strlit("semibold");
    reveal_strlit("bold");
    reveal_strlit("extra-bold");
    reveal_strlit("extrabold");
    reveal_strlit("black");
    reveal_strlit("heavy");
    lemma_letter_is_no_number("thin"@);
    lemma_letter_is_no_number("light"@);
    lemma_letter_is_no_number("regular"@);
    lemma_letter_is_no_number("normal"@);
    lemma_letter_is_no_number("medium"@);
    lemma_letter_is_no_number("semi-bold"@);
    lemma_letter_is_no_number("semibold"@);
    lemma_letter_is_no_number("bold"@);
    lemma_letter_is_no_number("extra-bold"@);
    lemma_letter_is_no_number("extrabold"@);
    lemma_letter_is_no_number("black"@);
    lemma_letter_is_no_number("heavy"@);
}


/// The property names of the theme colours are pairwise different.
proof fn lemma_slot_names_differ()
    ensures
        "grey_000"@.len() == 8,
        "grey_100"@.len() == 8,
        "grey_200"@.len() == 8,
        "grey_300"@.len() == 8,
        "grey_400"@.len() == 8,
        "grey_500"@.len() == 8,
        "grey_600"@.len() == 8,
        "grey_700"@.len() == 8,
        "blue_100"@.len() == 8,
        "blue_200"@.len() == 8,
        "red"@.len() == 3,
        "link_hot_color"@.len() == 14,
        "link_active_color"@.len() == 17,
        "link_cold_color"@.len() == 15,
        "window_background_color"@.len() == 23,
        "text_color"@.len() == 10,
        "icon_color"@.len() == 10,
        "placeholder_color"@.len() == 17,
        "primary_light"@.len() == 13,
        "primary_dark"@.len() == 12,
        "background_light"@.len() == 16,
        "background_dark"@.len() == 15,
        "foreground_light"@.len() == 16,
        "foreground_dark"@.len() == 15,
        "button_light"@.len() == 12,
        "button_dark"@.len() == 11,
        "border_light"@.len() == 12,
        "border_dark"@.len() == 11,
        "selected_text_background_color"@.len() == 30,
        "selection_text_color"@.len() == 20,
        "cursor_color"@.len() == 12,
        "scrollbar_color"@.len() == 15,
        "scrollbar_border_color"@.len() == 22,
        "menu_button_bg_active"@.len() == 21,
        "menu_button_bg_inactive"@.len() == 23,
        "menu_button_fg_active"@.len() == 21,
        "menu_button_fg_inactive"@.len() == 23,
        "grey_000"@ != "grey_100"@,
        "grey_000"@ != "grey_200"@,
        "grey_000"@ != "grey_300"@,
        "grey_000"@ != "grey_400"@,
        "grey_000"@ != "grey_500"@,
        "grey_000"@ != "grey_600"@,
        "grey_000"@ != "grey_700"@,
        "grey_000"@ != "blue_100"@,
        "grey_000"@ != "blue_200"@,
        "grey_000"@ != "red"@,
        "grey_000"@ != "link_hot_color"@,
        "grey_000"@ != "link_active_color"@,
        "grey_000"@ != "link_cold_color"@,
        "grey_000"@ != "window_background_color"@,
        "grey_000"@ != "text_color"@,
        "grey_000"@ != "icon_color"@,
        "grey_000"@ != "placeholder_color"@,
        "grey_000"@ != "primary_light"@,
        "grey_000"@ != "primary_dark"@,
        "grey_000"@ != "background_light"@,
        "grey_000"@ != "background_dark"@,
        "grey_000"@ != "foreground_light"@,
        "grey_000"@ != "foreground_dark"@,
        "grey_000"@ != "button_light"@,
        "grey_000"@ != "button_dark"@,
        "grey_000"@ != "border_light"@,
        "grey_000"@ != "border_dark"@,
        "grey_000"@ != "selected_text_background_color"@,
        "grey_000"@ != "selection_text_color"@,
        "grey_000"@ != "cursor_color"@,
        "grey_000"@ != "scrollbar_color"@,
        "grey_000"@ != "scrollbar_border_color"@,
        "grey_000"@ != "menu_button_bg_active"@,
        "grey_000"@ != "menu_button_bg_inactive"@,
        "grey_000"@ != "menu_button_fg_active"@,
        "grey_000"@ != "menu_button_fg_inactive"@,
        "grey_100"@ != "grey_200"@,
        "grey_100"@ != "grey_300"@,
        "grey_100"@ != "grey_400"@,
        "grey_100"@ != "grey_500"@,
        "grey_100"@ != "grey_600"@,
        "grey_100"@ != "grey_700"@,
        "grey_100"@ != "blue_100"@,
        "grey_100"@ != "blue_200"@,
        "grey_100"@ != "red"@,
        "grey_100"@ != "link_hot_color"@,
        "grey_100"@ != "link_active_color"@,
        "grey_100"@ != "link_cold_color"@,
        "grey_100"@ != "window_background_color"@,
        "grey_100"@ != "text_color"@,
        "grey_100"@ != "icon_color"@,
        "grey_100"@ != "placeholder_color"@,
        "grey_100"@ != "primary_light"@,
        "grey_100"@ != "primary_dark"@,
        "grey_100"@ != "background_light"@,
        "grey_100"@ != "background_dark"@,
        "grey_100"@ != "foreground_light"@,
        "grey_100"@ != "foreground_dark"@,
        "grey_100"@ != "button_light"@,
        "grey_100"@ != "button_dark"@,
        "grey_100"@ != "border_light"@,
        "grey_100"@ != "border_dark"@,
        "grey_100"@ != "selected_text_background_color"@,
        "grey_100"@ != "selection_text_color"@,
        "grey_100"@ != "cursor_color"@,
        "grey_100"@ != "scrollbar_color"@,
        "grey_100"@ != "scrollbar_border_color"@,
        "grey_100"@ != "menu_button_bg_active"@,
        "grey_100"@ != "menu_button_bg_inactive"@,
        "grey_100"@ != "menu_button_fg_active"@,
        "grey_100"@ != "menu_button_fg_inactive"@,
        "grey_200"@ != "grey_300"@,
        "grey_200"@ != "grey_400"@,
        "grey_200"@ != "grey_500"@,
        "grey_200"@ != "grey_600"@,
        "grey_200"@ != "grey_700"@,
        "grey_200"@ != "blue_100"@,
        "grey_200"@ != "blue_200"@,
        "grey_200"@ != "red"@,
        "grey_200"@ != "link_hot_color"@,
        "grey_200"@ != "link_active_color"@,
        "grey_200"@ != "link_cold_color"@,
        "grey_200"@ != "window_background_color"@,
        "grey_200"@ != "text_color"@,
        "grey_200"@ != "icon_color"@,
        "grey_200"@ != "placeholder_color"@,
        "grey_200"@ != "primary_light"@,
        "grey_200"@ != "primary_dark"@,
        "grey_200"@ != "background_light"@,
        "grey_200"@ != "background_dark"@,
        "grey_200"@ != "foreground_light"@,
        "grey_200"@ != "foreground_dark"@,
        "grey_200"@ != "button_light"@,
        "grey_200"@ != "button_dark"@,
        "grey_200"@ != "border_light"@,
        "grey_200"@ != "border_dark"@,
        "grey_200"@ != "selected_text_background_color"@,
        "grey_200"@ != "selection_text_color"@,
        "grey_200"@ != "cursor_color"@,
        "grey_200"@ != "scrollbar_color"@,
        "grey_200"@ != "scrollbar_border_color"@,
        "grey_200"@ != "menu_button_bg_active"@,
        "grey_200"@ != "menu_button_bg_inactive"@,
        "grey_200"@ != "menu_button_fg_active"@,
        "grey_200"@ != "menu_button_fg_inactive"@,
        "grey_300"@ != "grey_400"@,
        "grey_300"@ != "grey_500"@,
        "grey_300"@ != "grey_600"@,
        "grey_300"@ != "grey_700"@,
        "grey_300"@ != "blue_100"@,
        "grey_300"@ != "blue_200"@,
        "grey_300"@ != "red"@,
        "grey_300"@ != "link_hot_color"@,
        "grey_300"@ != "link_active_color"@,
        "grey_300"@ != "link_cold_color"@,
        "grey_300"@ != "window_background_color"@,
        "grey_300"@ != "text_color"@,
        "grey_300"@ != "icon_color"@,
        "grey_300"@ != "placeholder_color"@,
        "grey_300"@ != "primary_light"@,
        "grey_300"@ != "primary_dark"@,
        "grey_300"@ != "background_light"@,
        "grey_300"@ != "background_dark"@,
        "grey_300"@ != "foreground_light"@,
        "grey_300"@ != "foreground_dark"@,
        "grey_300"@ != "button_light"@,
        "grey_300"@ != "button_dark"@,
        "grey_300"@ != "border_light"@,
        "grey_300"@ != "border_dark"@,
        "grey_300"@ != "selected_text_background_color"@,
        "grey_300"@ != "selection_text_color"@,
        "grey_300"@ != "cursor_color"@,
        "grey_300"@ != "scrollbar_color"@,
        "grey_300"@ != "scrollbar_border_color"@,
        "grey_300"@ != "menu_button_bg_active"@,
        "grey_300"@ != "menu_button_bg_inactive"@,
        "grey_300"@ != "menu_button_fg_active"@,
        "grey_300"@ != "menu_button_fg_inactive"@,
        "grey_400"@ != "grey_500"@,
        "grey_400"@ != "grey_600"@,
        "grey_400"@ != "grey_700"@,
        "grey_400"@ != "blue_100"@,
        "grey_400"@ != "blue_200"@,
        "grey_400"@ != "red"@,
        "grey_400"@ != "link_hot_color"@,
        "grey_400"@ != "link_active_color"@,
        "grey_400"@ != "link_cold_color"@,
        "grey_400"@ != "window_background_color"@,
        "grey_400"@ != "text_color"@,
        "grey_400"@ != "icon_color"@,
        "grey_400"@ != "placeholder_color"@,
        "grey_400"@ != "primary_light"@,
        "grey_400"@ != "primary_dark"@,
        "grey_400"@ != "background_light"@,
        "grey_400"@ != "background_dark"@,
        "grey_400"@ != "foreground_light"@,
        "grey_400"@ != "foreground_dark"@,
        "grey_400"@ != "button_light"@,
        "grey_400"@ != "button_dark"@,
        "grey_400"@ != "border_light"@,
        "grey_400"@ != "border_dark"@,
        "grey_400"@ != "selected_text_background_color"@,
        "grey_400"@ != "selection_text_color"@,
        "grey_400"@ != "cursor_color"@,
        "grey_400"@ != "scrollbar_color"@,
        "grey_400"@ != "scrollbar_border_color"@,
        "grey_400"@ != "menu_button_bg_active"@,
        "grey_400"@ != "menu_button_bg_inactive"@,
        "grey_400"@ != "menu_button_fg_active"@,
        "grey_400"@ != "menu_button_fg_inactive"@,
        "grey_500"@ != "grey_600"@,
        "grey_500"@ != "grey_700"@,
        "grey_500"@ != "blue_100"@,
        "grey_500"@ != "blue_200"@,
        "grey_500"@ != "red"@,
        "grey_500"@ != "link_hot_color"@,
        "grey_500"@ != "link_active_color"@,
        "grey_500"@ != "link_cold_color"@,
        "grey_500"@ != "window_background_color"@,
        "grey_500"@ != "text_color"@,
        "grey_500"@ != "icon_color"@,
        "grey_500"@ != "placeholder_color"@,
        "grey_500"@ != "primary_light"@,
        "grey_500"@ != "primary_dark"@,
        "grey_500"@ != "background_light"@,
        "grey_500"@ != "background_dark"@,
        "grey_500"@ != "foreground_light"@,
        "grey_500"@ != "foreground_dark"@,
        "grey_500"@ != "button_light"@,
        "grey_500"@ != "button_dark"@,
        "grey_500"@ != "border_light"@,
        "grey_500"@ != "border_dark"@,
        "grey_500"@ != "selected_text_background_color"@,
        "grey_500"@ != "selection_text_color"@,
        "grey_500"@ != "cursor_color"@,
        "grey_500"@ != "scrollbar_color"@,
        "grey_500"@ != "scrollbar_border_color"@,
        "grey_500"@ != "menu_button_bg_active"@,
        "grey_500"@ != "menu_button_bg_inactive"@,
        "grey_500"@ != "menu_button_fg_active"@,
        "grey_500"@ != "menu_button_fg_inactive"@,
        "grey_600"@ != "grey_700"@,
        "grey_600"@ != "blue_100"@,
        "grey_600"@ != "blue_200"@,
        "grey_600"@ != "red"@,
        "grey_600"@ != "link_hot_color"@,
        "grey_600"@ != "link_active_color"@,
        "grey_600"@ != "link_cold_color"@,
        "grey_600"@ != "window_background_color"@,
        "grey_600"@ != "text_color"@,
        "grey_600"@ != "icon_color"@,
        "grey_600"@ != "placeholder_color"@,
        "grey_600"@ != "primary_light"@,
        "grey_600"@ != "primary_dark"@,
        "grey_600"@ != "background_light"@,
        "grey_600"@ != "background_dark"@,
        "grey_600"@ != "foreground_light"@,
        "grey_600"@ != "foreground_dark"@,
        "grey_600"@ != "button_light"@,
        "grey_600"@ != "button_dark"@,
        "grey_600"@ != "border_light"@,
        "grey_600"@ != "border_dark"@,
        "grey_600"@ != "selected_text_background_color"@,
        "grey_600"@ != "selection_text_color"@,
        "grey_600"@ != "cursor_color"@,
        "grey_600"@ != "scrollbar_color"@,
        "grey_600"@ != "scrollbar_border_color"@,
        "grey_600"@ != "menu_button_bg_active"@,
        "grey_600"@ != "menu_button_bg_inactive"@,
        "grey_600"@ != "menu_button_fg_active"@,
        "grey_600"@ != "menu_button_fg_inactive"@,
        "grey_700"@ != "blue_100"@,
        "grey_700"@ != "blue_200"@,
        "grey_700"@ != "red"@,
        "grey_700"@ != "link_hot_color"@,
        "grey_700"@ != "link_active_color"@,
        "grey_700"@ != "link_cold_color"@,
        "grey_700"@ != "window_background_color"@,
        "grey_700"@ != "text_color"@,
        "grey_700"@ != "icon_color"@,
        "grey_700"@ != "placeholder_color"@,
        "grey_700"@ != "primary_light"@,
        "grey_700"@ != "primary_dark"@,
        "grey_700"@ != "background_light"@,
        "grey_700"@ != "background_dark"@,
        "grey_700"@ != "foreground_light"@,
        "grey_700"@ != "foreground_dark"@,
        "grey_700"@ != "button_light"@,
        "grey_700"@ != "button_dark"@,
        "grey_700"@ != "border_light"@,
        "grey_700"@ != "border_dark"@,
        "grey_700"@ != "selected_text_background_color"@,
        "grey_700"@ != "selection_text_color"@,
        "grey_700"@ != "cursor_color"@,
        "grey_700"@ != "scrollbar_color"@,
        "grey_700"@ != "scrollbar_border_color"@,
        "grey_700"@ != "menu_button_bg_active"@,
        "grey_700"@ != "menu_button_bg_inactive"@,
        "grey_700"@ != "menu_button_fg_active"@,
        "grey_700"@ != "menu_button_fg_inactive"@,
        "blue_100"@ != "blue_200"@,
        "blue_100"@ != "red"@,
        "blue_100"@ != "link_hot_color"@,
        "blue_100"@ != "link_active_color"@,
        "blue_100"@ != "link_cold_color"@,
        "blue_100"@ != "window_background_color"@,
        "blue_100"@ != "text_color"@,
        "blue_100"@ != "icon_color"@,
        "blue_100"@ != "placeholder_color"@,
        "blue_100"@ != "primary_light"@,
        "blue_100"@ != "primary_dark"@,
        "blue_100"@ != "background_light"@,
        "blue_100"@ != "background_dark"@,
        "blue_100"@ != "foreground_light"@,
        "blue_100"@ != "foreground_dark"@,
        "blue_100"@ != "button_light"@,
        "blue_100"@ != "button_dark"@,
        "blue_100"@ != "border_light"@,
        "blue_100"@ != "border_dark"@,
        "blue_100"@ != "selected_text_background_color"@,
        "blue_100"@ != "selection_text_color"@,
        "blue_100"@ != "cursor_color"@,
        "blue_100"@ != "scrollbar_color"@,
        "blue_100"@ != "scrollbar_border_color"@,
        "blue_100"@ != "menu_button_bg_active"@,
        "blue_100"@ != "menu_button_bg_inactive"@,
        "blue_100"@ != "menu_button_fg_active"@,
        "blue_100"@ != "menu_button_fg_inactive"@,
        "blue_200"@ != "red"@,
        "blue_200"@ != "link_hot_color"@,
        "blue_200"@ != "link_active_color"@,
        "blue_200"@ != "link_cold_color"@,
        "blue_200"@ != "window_background_color"@,
        "blue_200"@ != "text_color"@,
        "blue_200"@ != "icon_color"@,
        "blue_200"@ != "placeholder_color"@,
        "blue_200"@ != "primary_light"@,
        "blue_200"@ != "primary_dark"@,
        "blue_200"@ != "background_light"@,
        "blue_200"@ != "background_dark"@,
        "blue_200"@ != "foreground_light"@,
        "blue_200"@ != "foreground_dark"@,
        "blue_200"@ != "button_light"@,
        "blue_200"@ != "button_dark"@,
        "blue_200"@ != "border_light"@,
        "blue_200"@ != "border_dark"@,
        "blue_200"@ != "selected_text_background_color"@,
        "blue_200"@ != "selection_text_color"@,
        "blue_200"@ != "cursor_color"@,
        "blue_200"@ != "scrollbar_color"@,
        "blue_200"@ != "scrollbar_border_color"@,
        "blue_200"@ != "menu_button_bg_active"@,
        "blue_200"@ != "menu_button_bg_inactive"@,
        "blue_200"@ != "menu_button_fg_active"@,
        "blue_200"@ != "menu_button_fg_inactive"@,
        "red"@ != "link_hot_color"@,
        "red"@ != "link_active_color"@,
        "red"@ != "link_cold_color"@,
        "red"@ != "window_background_color"@,
        "red"@ != "text_color"@,
        "red"@ != "icon_color"@,
        "red"@ != "placeholder_color"@,
        "red"@ != "primary_light"@,
        "red"@ != "primary_dark"@,
        "red"@ != "background_light"@,
        "red"@ != "background_dark"@,
        "red"@ != "foreground_light"@,
        "red"@ != "foreground_dark"@,
        "red"@ != "button_light"@,
        "red"@ != "button_dark"@,
        "red"@ != "border_light"@,
        "red"@ != "border_dark"@,
        "red"@ != "selected_text_background_color"@,
        "red"@ != "selection_text_color"@,
        "red"@ != "cursor_color"@,
        "red"@ != "scrollbar_color"@,
        "red"@ != "scrollbar_border_color"@,
        "red"@ != "menu_button_bg_active"@,
        "red"@ != "menu_button_bg_inactive"@,
        "red"@ != "menu_button_fg_active"@,
        "red"@ != "menu_button_fg_inactive"@,
        "link_hot_color"@ != "link_active_color"@,
        "link_hot_color"@ != "link_cold_color"@,
        "link_hot_color"@ != "window_background_color"@,
        "link_hot_color"@ != "text_color"@,
        "link_hot_color"@ != "icon_color"@,
        "link_hot_color"@ != "placeholder_color"@,
        "link_hot_color"@ != "primary_light"@,
        "link_hot_color"@ != "primary_dark"@,
        "link_hot_color"@ != "background_light"@,
        "link_hot_color"@ != "background_dark"@,
        "link_hot_color"@ != "foreground_light"@,
        "link_hot_color"@ != "foreground_dark"@,
        "link_hot_color"@ != "button_light"@,
        "link_hot_color"@ != "button_dark"@,
        "link_hot_color"@ != "border_light"@,
        "link_hot_color"@ != "border_dark"@,
        "link_hot_color"@ != "selected_text_background_color"@,
        "link_hot_color"@ != "selection_text_color"@,
        "link_hot_color"@ != "cursor_color"@,
        "link_hot_color"@ != "scrollbar_color"@,
        "link_hot_color"@ != "scrollbar_border_color"@,
        "link_hot_color"@ != "menu_button_bg_active"@,
        "link_hot_color"@ != "menu_button_bg_inactive"@,
        "link_hot_color"@ != "menu_button_fg_active"@,
        "link_hot_color"@ != "menu_button_fg_inactive"@,
        "link_active_color"@ != "link_cold_color"@,
        "link_active_color"@ != "window_background_color"@,
        "link_active_color"@ != "text_color"@,
        "link_active_color"@ != "icon_color"@,
        "link_active_color"@ != "placeholder_color"@,
        "link_active_color"@ != "primary_light"@,
        "link_active_color"@ != "primary_dark"@,
        "link_active_color"@ != "background_light"@,
        "link_active_color"@ != "background_dark"@,
        "link_active_color"@ != "foreground_light"@,
        "link_active_color"@ != "foreground_dark"@,
        "link_active_color"@ != "button_light"@,
        "link_active_color"@ != "button_dark"@,
        "link_active_color"@ != "border_light"@,
        "link_active_color"@ != "border_dark"@,
        "link_active_color"@ != "selected_text_background_color"@,
        "link_active_color"@ != "selection_text_color"@,
        "link_active_color"@ != "cursor_color"@,
        "link_active_color"@ != "scrollbar_color"@,
        "link_active_color"@ != "scrollbar_border_color"@,
        "link_active_color"@ != "menu_button_bg_active"@,
        "link_active_color"@ != "menu_button_bg_inactive"@,
        "link_active_color"@ != "menu_button_fg_active"@,
        "link_active_color"@ != "menu_button_fg_inactive"@,
        "link_cold_color"@ != "window_background_color"@,
        "link_cold_color"@ != "text_color"@,
        "link_cold_color"@ != "icon_color"@,
        "link_cold_color"@ != "placeholder_color"@,
        "link_cold_color"@ != "primary_light"@,
        "link_cold_color"@ != "primary_dark"@,
        "link_cold_color"@ != "background_light"@,
        "link_cold_color"@ != "background_dark"@,
        "link_cold_color"@ != "foreground_light"@,
        "link_cold_color"@ != "foreground_dark"@,
        "link_cold_color"@ != "button_light"@,
        "link_cold_color"@ != "button_dark"@,
        "link_cold_color"@ != "border_light"@,
        "link_cold_color"@ != "border_dark"@,
        "link_cold_color"@ != "selected_text_background_color"@,
        "link_cold_color"@ != "selection_text_color"@,
        "link_cold_color"@ != "cursor_color"@,
        "link_cold_color"@ != "scrollbar_color"@,
        "link_cold_color"@ != "scrollbar_border_color"@,
        "link_cold_color"@ != "menu_button_bg_active"@,
        "link_cold_color"@ != "menu_button_bg_inactive"@,
        "link_cold_color"@ != "menu_button_fg_active"@,
        "link_cold_color"@ != "menu_button_fg_inactive"@,
        "window_background_color"@ != "text_color"@,
        "window_background_color"@ != "icon_color"@,
        "window_background_color"@ != "placeholder_color"@,
        "window_background_color"@ != "primary_light"@,
        "window_background_color"@ != "primary_dark"@,
        "window_background_color"@ != "background_light"@,
        "window_background_color"@ != "background_dark"@,
        "window_background_color"@ != "foreground_light"@,
        "window_background_color"@ != "foreground_dark"@,
        "window_background_color"@ != "button_light"@,
        "window_background_color"@ != "button_dark"@,
        "window_background_color"@ != "border_light"@,
        "window_background_color"@ != "border_dark"@,
        "window_background_color"@ != "selected_text_background_color"@,
        "window_background_color"@ != "selection_text_color"@,
        "window_background_color"@ != "cursor_color"@,
        "window_background_color"@ != "scrollbar_color"@,
        "window_background_color"@ != "scrollbar_border_color"@,
        "window_background_color"@ != "menu_button_bg_active"@,
        "window_background_color"@ != "menu_button_bg_inactive"@,
        "window_background_color"@ != "menu_button_fg_active"@,
        "window_background_color"@ != "menu_button_fg_inactive"@,
        "text_color"@ != "icon_color"@,
        "text_color"@ != "placeholder_color"@,
        "text_color"@ != "primary_light"@,
        "text_color"@ != "primary_dark"@,
        "text_color"@ != "background_light"@,
        "text_color"@ != "background_dark"@,
        "text_color"@ != "foreground_light"@,
        "text_color"@ != "foreground_dark"@,
        "text_color"@ != "button_light"@,
        "text_color"@ != "button_dark"@,
        "text_color"@ != "border_light"@,
        "text_color"@ != "border_dark"@,
        "text_color"@ != "selected_text_background_color"@,
        "text_color"@ != "selection_text_color"@,
        "text_color"@ != "cursor_color"@,
        "text_color"@ != "scrollbar_color"@,
        "text_color"@ != "scrollbar_border_color"@,
        "text_color"@ != "menu_button_bg_active"@,
        "text_color"@ != "menu_button_bg_inactive"@,
        "text_color"@ != "menu_button_fg_active"@,
        "text_color"@ != "menu_button_fg_inactive"@,
        "icon_color"@ != "placeholder_color"@,
        "icon_color"@ != "primary_light"@,
        "icon_color"@ != "primary_dark"@,
        "icon_color"@ != "background_light"@,
        "icon_color"@ != "background_dark"@,
        "icon_color"@ != "foreground_light"@,
        "icon_color"@ != "foreground_dark"@,
        "icon_color"@ != "button_light"@,
        "icon_color"@ != "button_dark"@,
        "icon_color"@ != "border_light"@,
        "icon_color"@ != "border_dark"@,
        "icon_color"@ != "selected_text_background_color"@,
        "icon_color"@ != "selection_text_color"@,
        "icon_color"@ != "cursor_color"@,
        "icon_color"@ != "scrollbar_color"@,
        "icon_color"@ != "scrollbar_border_color"@,
        "icon_color"@ != "menu_button_bg_active"@,
        "icon_color"@ != "menu_button_bg_inactive"@,
        "icon_color"@ != "menu_button_fg_active"@,
        "icon_color"@ != "menu_button_fg_inactive"@,
        "placeholder_color"@ != "primary_light"@,
        "placeholder_color"@ != "primary_dark"@,
        "placeholder_color"@ != "background_light"@,
        "placeholder_color"@ != "background_dark"@,
        "placeholder_color"@ != "foreground_light"@,
        "placeholder_color"@ != "foreground_dark"@,
        "placeholder_color"@ != "button_light"@,
        "placeholder_color"@ != "button_dark"@,
        "placeholder_color"@ != "border_light"@,
        "placeholder_color"@ != "border_dark"@,
        "placeholder_color"@ != "selected_text_background_color"@,
        "placeholder_color"@ != "selection_text_color"@,
        "placeholder_color"@ != "cursor_color"@,
        "placeholder_color"@ != "scrollbar_color"@,
        "placeholder_color"@ != "scrollbar_border_color"@,
        "placeholder_color"@ != "menu_button_bg_active"@,
        "placeholder_color"@ != "menu_button_bg_inactive"@,
        "placeholder_color"@ != "menu_button_fg_active"@,
        "placeholder_color"@ != "menu_button_fg_inactive"@,
        "primary_light"@ != "primary_dark"@,
        "primary_light"@ != "background_light"@,
        "primary_light"@ != "background_dark"@,
        "primary_light"@ != "foreground_light"@,
        "primary_light"@ != "foreground_dark"@,
        "primary_light"@ != "button_light"@,
        "primary_light"@ != "button_dark"@,
        "primary_light"@ != "border_light"@,
        "primary_light"@ != "border_dark"@,
        "primary_light"@ != "selected_text_background_color"@,
        "primary_light"@ != "selection_text_color"@,
        "primary_light"@ != "cursor_color"@,
        "primary_light"@ != "scrollbar_color"@,
        "primary_light"@ != "scrollbar_border_color"@,
        "primary_light"@ != "menu_button_bg_active"@,
        "primary_light"@ != "menu_button_bg_inactive"@,
        "primary_light"@ != "menu_button_fg_active"@,
        "primary_light"@ != "menu_button_fg_inactive"@,
        "primary_dark"@ != "background_light"@,
        "primary_dark"@ != "background_dark"@,
        "primary_dark"@ != "foreground_light"@,
        "primary_dark"@ != "foreground_dark"@,
        "primary_dark"@ != "button_light"@,
        "primary_dark"@ != "button_dark"@,
        "primary_dark"@ != "border_light"@,
        "primary_dark"@ != "border_dark"@,
        "primary_dark"@ != "selected_text_background_color"@,
        "primary_dark"@ != "selection_text_color"@,
        "primary_dark"@ != "cursor_color"@,
        "primary_dark"@ != "scrollbar_color"@,
        "primary_dark"@ != "scrollbar_border_color"@,
        "primary_dark"@ != "menu_button_bg_active"@,
        "primary_dark"@ != "menu_button_bg_inactive"@,
        "primary_dark"@ != "menu_button_fg_active"@,
        "primary_dark"@ != "menu_button_fg_inactive"@,
        "background_light"@ != "background_dark"@,
        "background_light"@ != "foreground_light"@,
        "background_light"@ != "foreground_dark"@,
        "background_light"@ != "button_light"@,
        "background_light"@ != "button_dark"@,
        "background_light"@ != "border_light"@,
        "background_light"@ != "border_dark"@,
        "background_light"@ != "selected_text_background_color"@,
        "background_light"@ != "selection_text_color"@,
        "background_light"@ != "cursor_color"@,
        "background_light"@ != "scrollbar_color"@,
        "background_light"@ != "scrollbar_border_color"@,
        "background_light"@ != "menu_button_bg_active"@,
        "background_light"@ != "menu_button_bg_inactive"@,
        "background_light"@ != "menu_button_fg_active"@,
        "background_light"@ != "menu_button_fg_inactive"@,
        "background_dark"@ != "foreground_light"@,
        "background_dark"@ != "foreground_dark"@,
        "background_dark"@ != "button_light"@,
        "background_dark"@ != "button_dark"@,
        "background_dark"@ != "border_light"@,
        "background_dark"@ != "border_dark"@,
        "background_dark"@ != "selected_text_background_color"@,
        "background_dark"@ != "selection_text_color"@,
        "background_dark"@ != "cursor_color"@,
        "background_dark"@ != "scrollbar_color"@,
        "background_dark"@ != "scrollbar_border_color"@,
        "background_dark"@ != "menu_button_bg_active"@,
        "background_dark"@ != "menu_button_bg_inactive"@,
        "background_dark"@ != "menu_button_fg_active"@,
        "background_dark"@ != "menu_button_fg_inactive"@,
        "foreground_light"@ != "foreground_dark"@,
        "foreground_light"@ != "button_light"@,
        "foreground_light"@ != "button_dark"@,
        "foreground_light"@ != "border_light"@,
        "foreground_light"@ != "border_dark"@,
        "foreground_light"@ != "selected_text_background_color"@,
        "foreground_light"@ != "selection_text_color"@,
        "foreground_light"@ != "cursor_color"@,
        "foreground_light"@ != "scrollbar_color"@,
        "foreground_light"@ != "scrollbar_border_color"@,
        "foreground_light"@ != "menu_button_bg_active"@,
        "foreground_light"@ != "menu_button_bg_inactive"@,
        "foreground_light"@ != "menu_button_fg_active"@,
        "foreground_light"@ != "menu_button_fg_inactive"@,
        "foreground_dark"@ != "button_light"@,
        "foreground_dark"@ != "button_dark"@,
        "foreground_dark"@ != "border_light"@,
        "foreground_dark"@ != "border_dark"@,
        "foreground_dark"@ != "selected_text_background_color"@,
        "foreground_dark"@ != "selection_text_color"@,
        "foreground_dark"@ != "cursor_color"@,
        "foreground_dark"@ != "scrollbar_color"@,
        "foreground_dark"@ != "scrollbar_border_color"@,
        "foreground_dark"@ != "menu_button_bg_active"@,
        "foreground_dark"@ != "menu_button_bg_inactive"@,
        "foreground_dark"@ != "menu_button_fg_active"@,
        "foreground_dark"@ != "menu_button_fg_inactive"@,
        "button_light"@ != "button_dark"@,
        "button_light"@ != "border_light"@,
        "button_light"@ != "border_dark"@,
        "button_light"@ != "selected_text_background_color"@,
        "button_light"@ != "selection_text_color"@,
        "button_light"@ != "cursor_color"@,
        "button_light"@ != "scrollbar_color"@,
        "button_light"@ != "scrollbar_border_color"@,
        "button_light"@ != "menu_button_bg_active"@,
        "button_light"@ != "menu_button_bg_inactive"@,
        "button_light"@ != "menu_button_fg_active"@,
        "button_light"@ != "menu_button_fg_inactive"@,
        "button_dark"@ != "border_light"@,
        "button_dark"@ != "border_dark"@,
        "button_dark"@ != "selected_text_background_color"@,
        "button_dark"@ != "selection_text_color"@,
        "button_dark"@ != "cursor_color"@,
        "button_dark"@ != "scrollbar_color"@,
        "button_dark"@ != "scrollbar_border_color"@,
        "button_dark"@ != "menu_button_bg_active"@,
        "button_dark"@ != "menu_button_bg_inactive"@,
        "button_dark"@ != "menu_button_fg_active"@,
        "button_dark"@ != "menu_button_fg_inactive"@,
        "border_light"@ != "border_dark"@,
        "border_light"@ != "selected_text_background_color"@,
        "border_light"@ != "selection_text_color"@,
        "border_light"@ != "cursor_color"@,
        "border_light"@ != "scrollbar_color"@,
        "border_light"@ != "scrollbar_border_color"@,
        "border_light"@ != "menu_button_bg_active"@,
        "border_light"@ != "menu_button_bg_inactive"@,
        "border_light"@ != "menu_button_fg_active"@,
        "border_light"@ != "menu_button_fg_inactive"@,
        "border_dark"@ != "selected_text_background_color"@,
        "border_dark"@ != "selection_text_color"@,
        "border_dark"@ != "cursor_color"@,
        "border_dark"@ != "scrollbar_color"@,
        "border_dark"@ != "scrollbar_border_color"@,
        "border_dark"@ != "menu_button_bg_active"@,
        "border_dark"@ != "menu_button_bg_inactive"@,
        "border_dark"@ != "menu_button_fg_active"@,
        "border_dark"@ != "menu_button_fg_inactive"@,
        "selected_text_background_color"@ != "selection_text_color"@,
        "selected_text_background_color"@ != "cursor_color"@,
        "selected_text_background_color"@ != "scrollbar_color"@,
        "selected_text_background_color"@ != "scrollbar_border_color"@,
        "selected_text_background_color"@ != "menu_button_bg_active"@,
        "selected_text_background_color"@ != "menu_button_bg_inactive"@,
        "selected_text_background_color"@ != "menu_button_fg_active"@,
        "selected_text_background_color"@ != "menu_button_fg_inactive"@,
        "selection_text_color"@ != "cursor_color"@,
        "selection_text_color"@ != "scrollbar_color"@,
        "selection_text_color"@ != "scrollbar_border_color"@,
        "selection_text_color"@ != "menu_button_bg_active"@,
        "selection_text_color"@ != "menu_button_bg_inactive"@,
        "selection_text_color"@ != "menu_button_fg_active"@,
        "selection_text_color"@ != "menu_button_fg_inactive"@,
        "cursor_color"@ != "scrollbar_color"@,
        "cursor_color"@ != "scrollbar_border_color"@,
        "cursor_color"@ != "menu_button_bg_active"@,
        "cursor_color"@ != "menu_button_bg_inactive"@,
        "cursor_color"@ != "menu_button_fg_active"@,
        "cursor_color"@ != "menu_button_fg_inactive"@,
        "scrollbar_color"@ != "scrollbar_border_color"@,
        "scrollbar_color"@ != "menu_button_bg_active"@,
        "scrollbar_color"@ != "menu_button_bg_inactive"@,
        "scrollbar_color"@ != "menu_button_fg_active"@,
        "scrollbar_color"@ != "menu_button_fg_inactive"@,
        "scrollbar_border_color"@ != "menu_button_bg_active"@,
        "scrollbar_border_color"@ != "menu_button_bg_inactive"@,
        "scrollbar_border_color"@ != "menu_button_fg_active"@,
        "scrollbar_border_color"@ != "menu_button_fg_inactive"@,
        "menu_button_bg_active"@ != "menu_button_bg_inactive"@,
        "menu_button_bg_active"@ != "menu_button_fg_active"@,
        "menu_button_bg_active"@ != "menu_button_fg_inactive"@,
        "menu_button_bg_inactive"@ != "menu_button_fg_active"@,
        "menu_button_bg_inactive"@ != "menu_button_fg_inactive"@,
        "menu_button_fg_active"@ != "menu_button_fg_inactive"@,
{
    reveal_strlit("grey_000");
    reveal_strlit("grey_100");
    reveal_strlit("grey_200");
    reveal_strlit("grey_300");
    reveal_strlit("grey_400");
    reveal_strlit("grey_500");
    reveal_strlit("grey_600");
    reveal_strlit("grey_700");
    reveal_strlit("blue_100");
    reveal_strlit("blue_200");
    reveal_strlit("red");
    reveal_strlit("link_hot_color");
    reveal_strlit("link_active_color");
    reveal_strlit("link_cold_color");
    reveal_strlit("window_background_color");
    reveal_strlit("text_color");
    reveal_strlit("icon_color");
    reveal_strlit("placeholder_color");
    reveal_strlit("primary_light");
    reveal_strlit("primary_dark");
    reveal_strlit("background_light");
    reveal_strlit("background_dark");
    reveal_strlit("foreground_light");
    reveal_strlit("foreground_dark");
    reveal_strlit("button_light");
    reveal_strlit("button_dark");
    reveal_strlit("border_light");
    reveal_strlit("border_dark");
    reveal_strlit("selected_text_background_color");
    reveal_strlit("selection_text_color");
    reveal_strlit("cursor_color");
    reveal_strlit("scrollbar_color");
    reveal_strlit("scrollbar_border_color");
    reveal_strlit("menu_button_bg_active");
    reveal_strlit("menu_button_bg_inactive");
    reveal_strlit("menu_button_fg_active");
    reveal_strlit("menu_button_fg_inactive");
    assert("grey_000"@.len() == 8);
    assert("grey_100"@.len() == 8);
    assert("grey_200"@.len() == 8);
    assert("grey_300"@.len() == 8);
    assert("grey_400"@.len() == 8);
    assert("grey_500"@.len() == 8);
    assert("grey_600"@.len() == 8);
    assert("grey_700"@.len() == 8);
    assert("blue_100"@.len() == 8);
    assert("blue_200"@.len() == 8);
    assert("red"@.len() == 3);
    assert("link_hot_color"@.len() == 14);
    assert("link_active_color"@.len() == 17);
    assert("link_cold_color"@.len() == 15);
    assert("window_background_color"@.len() == 23);
    assert("text_color"@.len() == 10);
    assert("icon_color"@.len() == 10);
    assert("placeholder_color"@.len() == 17);
    assert("primary_light"@.len() == 13);
    assert("primary_dark"@.len() == 12);
    assert("background_light"@.len() == 16);
    assert("background_dark"@.len() == 15);
    assert("foreground_light"@.len() == 16);
    assert("foreground_dark"@.len() == 15);
    assert("button_light"@.len() == 12);
    assert("button_dark"@.len() == 11);
    assert("border_light"@.len() == 12);
    assert("border_dark"@.len() == 11);
    assert("selected_text_background_color"@.len() == 30);
    assert("selection_text_color"@.len() == 20);
    assert("cursor_color"@.len() == 12);
    assert("scrollbar_color"@.len() == 15);
    assert("scrollbar_border_color"@.len() == 22);
    assert("menu_button_bg_active"@.len() == 21);
    assert("menu_button_bg_inactive"@.len() == 23);
    assert("menu_button_fg_active"@.len() == 21);
    assert("menu_button_fg_inactive"@.len() == 23);
    assert("grey_000"@[5] != "grey_100"@[5]);
    assert("grey_000"@[5] != "grey_200"@[5]);
    assert("grey_000"@[5] != "grey_300"@[5]);
    assert("grey_000"@[5] != "grey_400"@[5]);
    assert("grey_000"@[5] != "grey_500"@[5]);
    assert("grey_000"@[5] != "grey_600"@[5]);
    assert("grey_000"@[5] != "grey_700"@[5]);
    assert("grey_000"@[0] != "blue_100"@[0]);
    assert("grey_000"@[0] != "blue_200"@[0]);
    assert("grey_100"@[5] != "grey_200"@[5]);
    assert("grey_100"@[5] != "grey_300"@[5]);
    assert("grey_100"@[5] != "grey_400"@[5]);
    assert("grey_100"@[5] != "grey_500"@[5]);
    assert("grey_100"@[5] != "grey_600"@[5]);
    assert("grey_100"@[5] != "grey_700"@[5]);
    assert("grey_100"@[0] != "blue_100"@[0]);
    assert("grey_100"@[0] != "blue_200"@[0]);
    assert("grey_200"@[5] != "grey_300"@[5]);
    assert("grey_200"@[5] != "grey_400"@[5]);
    assert("grey_200"@[5] != "grey_500"@[5]);
    assert("grey_200"@[5] != "grey_600"@[5]);
    assert("grey_200"@[5] != "grey_700"@[5]);
    assert("grey_200"@[0] != "blue_100"@[0]);
    assert("grey_200"@[0] != "blue_200"@[0]);
    assert("grey_300"@[5] != "grey_400"@[5]);
    assert("grey_300"@[5] != "grey_500"@[5]);
    assert("grey_300"@[5] != "grey_600"@[5]);
    assert("grey_300"@[5] != "grey_700"@[5]);
    assert("grey_300"@[0] != "blue_100"@[0]);
    assert("grey_300"@[0] != "blue_200"@[0]);
    assert("grey_400"@[5] != "grey_500"@[5]);
    assert("grey_400"@[5] != "grey_600"@[5]);
    assert("grey_400"@[5] != "grey_700"@[5]);
    assert("grey_400"@[0] != "blue_100"@[0]);
    assert("grey_400"@[0] != "blue_200"@[0]);
    assert("grey_500"@[5] != "grey_600"@[5]);
    assert("grey_500"@[5] != "grey_700"@[5]);
    assert("grey_500"@[0] != "blue_100"@[0]);
    assert("grey_500"@[0] != "blue_200"@[0]);
    assert("grey_600"@[5] != "grey_700"@[5]);
    assert("grey_600"@[0] != "blue_100"@[0]);
    assert("grey_600"@[0] != "blue_200"@[0]);
    assert("grey_700"@[0] != "blue_100"@[0]);
    assert("grey_700"@[0] != "blue_200"@[0]);
    assert("blue_100"@[5] != "blue_200"@[5]);
    assert("link_active_color"@[0] != "placeholder_color"@[0]);
    assert("link_cold_color"@[0] != "background_dark"@[0]);
    assert("link_cold_color"@[0] != "foreground_dark"@[0]);
    assert("link_cold_color"@[0] != "scrollbar_color"@[0]);
    assert("window_background_color"@[0] != "menu_button_bg_inactive"@[0]);
    assert("window_background_color"@[0] != "menu_button_fg_inactive"@[0]);
    assert("text_color"@[0] != "icon_color"@[0]);
    assert("primary_dark"@[0] != "button_light"@[0]);
    assert("primary_dark"@[0] != "border_light"@[0]);
    assert("primary_dark"@[0] != "cursor_color"@[0]);
    assert("background_light"@[0] != "foreground_light"@[0]);
    assert("background_dark"@[0] != "foreground_dark"@[0]);
    assert("background_dark"@[0] != "scrollbar_color"@[0]);
    assert("foreground_dark"@[0] != "scrollbar_color"@[0]);
    assert("button_light"@[1] != "border_light"@[1]);
    assert("button_light"@[0] != "cursor_color"@[0]);
    assert("button_dark"@[1] != "border_dark"@[1]);
    assert("border_light"@[0] != "cursor_color"@[0]);
    assert("menu_button_bg_active"@[12] != "menu_button_fg_active"@[12]);
    assert("menu_button_bg_inactive"@[12] != "menu_button_fg_inactive"@[12]);
}

/// Each theme colour is set by the property that spells its own name in
/// snake case (`ButtonLight` by `button_light`, `ButtonDark` by
/// `button_dark`, ...), and no two colours share a property.
pub proof fn law_theme_colors_by_own_name()
    ensures
        css_name(ThemeColor::Grey000) == "grey_000"@,
        css_name(ThemeColor::Grey100) == "grey_100"@,
        css_name(ThemeColor::Grey200) == "grey_200"@,
        css_name(ThemeColor::Grey300) == "grey_300"@,
        css_name(ThemeColor::Grey400) == "grey_400"@,
        css_name(ThemeColor::Grey500) == "grey_500"@,
        css_name(ThemeColor::Grey600) == "grey_600"@,
        css_name(ThemeColor::Grey700) == "grey_700"@,
        css_name(ThemeColor::Blue100) == "blue_100"@,
        css_name(ThemeColor::Blue200) == "blue_200"@,
        css_name(ThemeColor::Red) == "red"@,
        css_name(ThemeColor::LinkHotColor) == "link_hot_color"@,
        css_name(ThemeColor::LinkActiveColor) == "link_active_color"@,
        css_name(ThemeColor::LinkColdColor) == "link_cold_color"@,
        css_name(ThemeColor::WindowBackgroundColor) == "window_background_color"@,
        css_name(ThemeColor::TextColor) == "text_color"@,
        css_name(ThemeColor::IconColor) == "icon_color"@,
        css_name(ThemeColor::PlaceholderColor) == "placeholder_color"@,
        css_name(ThemeColor::PrimaryLight) == "primary_light"@,
        css_name(ThemeColor::PrimaryDark) == "primary_dark"@,
        css_name(ThemeColor::BackgroundLight) == "background_light"@,
        css_name(ThemeColor::BackgroundDark) == "background_dark"@,
        css_name(ThemeColor::ForegroundLight) == "foreground_light"@,
        css_name(ThemeColor::ForegroundDark) == "foreground_dark"@,
        css_name(ThemeColor::ButtonLight) == "button_light"@,
        css_name(ThemeColor::ButtonDark) == "button_dark"@,
        css_name(ThemeColor::BorderLight) == "border_light"@,
        css_name(ThemeColor::BorderDark) == "border_dark"@,
        css_name(ThemeColor::SelectedTextBackgroundColor) == "selected_text_background_color"@,
        css_name(ThemeColor::SelectionTextColor) == "selection_text_color"@,
        css_name(ThemeColor::CursorColor) == "cursor_color"@,
        css_name(ThemeColor::ScrollbarColor) == "scrollbar_color"@,
        css_name(ThemeColor::ScrollbarBorderColor) == "scrollbar_border_color"@,
        css_name(ThemeColor::MenuButtonBgActive) == "menu_button_bg_active"@,
        css_name(ThemeColor::MenuButtonBgInactive) == "menu_button_bg_inactive"@,
        css_name(ThemeColor::MenuButtonFgActive) == "menu_button_fg_active"@,
        css_name(ThemeColor::MenuButtonFgInactive) == "menu_button_fg_inactive"@,
        forall|a: ThemeColor, b: ThemeColor| #[trigger] css_name(a) == #[trigger] css_name(b) ==> a
            == b,
{
    lemma_slot_names_differ();
}


/// The colour names are pairwise different.
proof fn lemma_color_names_differ()
    ensures
        "black"@.len() == 5,
        "white"@.len() == 5,
        "transparent"@.len() == 11,
        "red"@.len() == 3,
        "green"@.len() == 5,
        "blue"@.len() == 4,
        "gray"@.len() == 4,
        "grey"@.len() == 4,
        "black"@ != "white"@,
        "black"@ != "transparent"@,
        "black"@ != "red"@,
        "black"@ != "green"@,
        "black"@ != "blue"@,
        "black"@ != "gray"@,
        "black"@ != "grey"@,
        "white"@ != "transparent"@,
        "white"@ != "red"@,
        "white"@ != "green"@,
        "white"@ != "blue"@,
        "white"@ != "gray"@,
        "white"@ != "grey"@,
        "transparent"@ != "red"@,
        "transparent"@ != "green"@,
        "transparent"@ != "blue"@,
        "transparent"@ != "gray"@,
        "transparent"@ != "grey"@,
        "red"@ != "green"@,
        "red"@ != "blue"@,
        "red"@ != "gray"@,
        "red"@ != "grey"@,
        "green"@ != "blue"@,
        "green"@ != "gray"@,
        "green"@ != "grey"@,
        "blue"@ != "gray"@,
        "blue"@ != "grey"@,
        "gray"@ != "grey"@,
{
    reveal_strlit("black");
    reveal_strlit("white");
    reveal_strlit("transparent");
    reveal_strlit("red");
    reveal_strlit("green");
    reveal_strlit("blue");
    reveal_strlit("gray");
    reveal_strlit("grey");
    assert("black"@.len() == 5);
    assert("white"@.len() == 5);
    assert("transparent"@.len() == 11);
    assert("red"@.len() == 3);
    assert("green"@.len() == 5);
    assert("blue"@.len() == 4);
    assert("gray"@.len() == 4);
    assert("grey"@.len() == 4);
    assert("black"@[0] != "white"@[0]);
    assert("black"@[0] != "green"@[0]);
    assert("white"@[0] != "green"@[0]);
    assert("blue"@[0] != "gray"@[0]);
    assert("blue"@[0] != "grey"@[0]);
    assert("gray"@[2] != "grey"@[2]);
}

/// A colour name, trimmed and in any ASCII case, gives its colour: black,
/// white, transparent (all channels 0), red, green (half-intensity green),
/// blue, and gray or grey (half-intensity grey); other letters give none.
pub proof fn law_named_colors(input: Seq<char>)
    ensures
        ({
            let s = trim(input);
            let l = lower(s);
            &&& l == "black"@ ==> color_of(input) == Some(ColorModel::Solid(Color { r: 0, g: 0, b: 0, a: 255 }))
            &&& l == "white"@ ==> color_of(input) == Some(ColorModel::Solid(Color { r: 255, g: 255, b: 255, a: 255 }))
            &&& l == "transparent"@ ==> color_of(input) == Some(ColorModel::Solid(Color { r: 0, g: 0, b: 0, a: 0 }))
            &&& l == "red"@ ==> color_of(input) == Some(ColorModel::Solid(Color { r: 255, g: 0, b: 0, a: 255 }))
            &&& l == "green"@ ==> color_of(input) == Some(ColorModel::Solid(Color { r: 0, g: 128, b: 0, a: 255 }))
            &&& l == "blue"@ ==> color_of(input) == Some(ColorModel::Solid(Color { r: 0, g: 0, b: 255, a: 255 }))
            &&& l == "gray"@ ==> color_of(input) == Some(ColorModel::Solid(Color { r: 128, g: 128, b: 128, a: 255 }))
            &&& l == "grey"@ ==> color_of(input) == Some(ColorModel::Solid(Color { r: 128, g: 128, b: 128, a: 255 }))
            &&& (s.len() > 0 && 'a' <= l[0] <= 'z' && !starts_with3(s, 'r', 'g', 'b')
                && !starts_with3(s, 'h', 's', 'l') && !(l == "black"@ || l == "white"@ || l == "transparent"@ || l == "red"@ || l == "green"@ || l == "blue"@ || l == "gray"@ || l == "grey"@)) ==> color_of(input) is None
        }),
{
    lemma_color_names_differ();
    reveal_strlit("black");
    reveal_strlit("white");
    reveal_strlit("transparent");
    reveal_strlit("red");
    reveal_strlit("green");
    reveal_strlit("blue");
    reveal_strlit("gray");
    reveal_strlit("grey");
    let s = trim(input);
    let l = lower(s);
    if l == "black"@ {
        assert(l[0] == crate::text::lower_char(s[0]));
        assert(l[1] == crate::text::lower_char(s[1]));
    }
    if l == "white"@ {
        assert(l[0] == crate::text::lower_char(s[0]));
        assert(l[1] == crate::text::lower_char(s[1]));
    }
    if l == "transparent"@ {
        assert(l[0] == crate::text::lower_char(s[0]));
        assert(l[1] == crate::text::lower_char(s[1]));
    }
    if l == "red"@ {
        assert(l[0] == crate::text::lower_char(s[0]));
        assert(l[1] == crate::text::lower_char(s[1]));
    }
    if l == "green"@ {
        assert(l[0] == crate::text::lower_char(s[0]));
        assert(l[1] == crate::text::lower_char(s[1]));
    }
    if l == "blue"@ {
        assert(l[0] == crate::text::lower_char(s[0]));
        assert(l[1] == crate::text::lower_char(s[1]));
    }
    if l == "gray"@ {
        assert(l[0] == crate::text::lower_char(s[0]));
        assert(l[1] == crate::text::lower_char(s[1]));
    }
    if l == "grey"@ {
        assert(l[0] == crate::text::lower_char(s[0]));
        assert(l[1] == crate::text::lower_char(s[1]));
    }
    if s.len() > 0 {
        assert(l[0] == crate::text::lower_char(s[0]));
    }
}


/// The palette overrides cover the greys, the blues, red and the link
/// colours; the direct overrides cover the window elements, then buttons,
/// borders, selection, cursor and scroll bars, then the menu buttons.
pub proof fn law_override_groups()
    ensures
        palette_slots() == seq![ThemeColor::Grey000, ThemeColor::Grey100, ThemeColor::Grey200, ThemeColor::Grey300, ThemeColor::Grey400, ThemeColor::Grey500, ThemeColor::Grey600, ThemeColor::Grey700, ThemeColor::Blue100, ThemeColor::Blue200, ThemeColor::Red, ThemeColor::LinkHotColor, ThemeColor::LinkActiveColor, ThemeColor::LinkColdColor],
        element_slots() == seq![ThemeColor::WindowBackgroundColor, ThemeColor::TextColor, ThemeColor::IconColor, ThemeColor::PlaceholderColor, ThemeColor::PrimaryLight, ThemeColor::PrimaryDark, ThemeColor::BackgroundLight, ThemeColor::BackgroundDark, ThemeColor::ForegroundLight, ThemeColor::ForegroundDark],
        button_slots() == seq![ThemeColor::ButtonLight, ThemeColor::ButtonDark, ThemeColor::BorderLight, ThemeColor::BorderDark, ThemeColor::SelectedTextBackgroundColor, ThemeColor::SelectionTextColor, ThemeColor::CursorColor, ThemeColor::ScrollbarColor, ThemeColor::ScrollbarBorderColor],
        menu_slots() == seq![ThemeColor::MenuButtonBgActive, ThemeColor::MenuButtonBgInactive, ThemeColor::MenuButtonFgActive, ThemeColor::MenuButtonFgInactive],
{
    assert(palette_slots() =~= seq![ThemeColor::Grey000, ThemeColor::Grey100, ThemeColor::Grey200, ThemeColor::Grey300, ThemeColor::Grey400, ThemeColor::Grey500, ThemeColor::Grey600, ThemeColor::Grey700, ThemeColor::Blue100, ThemeColor::Blue200, ThemeColor::Red, ThemeColor::LinkHotColor, ThemeColor::LinkActiveColor, ThemeColor::LinkColdColor]);
    assert(element_slots() =~= seq![ThemeColor::WindowBackgroundColor, ThemeColor::TextColor, ThemeColor::IconColor, ThemeColor::PlaceholderColor, ThemeColor::PrimaryLight, ThemeColor::PrimaryDark, ThemeColor::BackgroundLight, ThemeColor::BackgroundDark, ThemeColor::ForegroundLight, ThemeColor::ForegroundDark]);
    assert(button_slots() =~= seq![ThemeColor::ButtonLight, ThemeColor::ButtonDark, ThemeColor::BorderLight, ThemeColor::BorderDark, ThemeColor::SelectedTextBackgroundColor, ThemeColor::SelectionTextColor, ThemeColor::CursorColor, ThemeColor::ScrollbarColor, ThemeColor::ScrollbarBorderColor]);
    assert(menu_slots() =~= seq![ThemeColor::MenuButtonBgActive, ThemeColor::MenuButtonBgInactive, ThemeColor::MenuButtonFgActive, ThemeColor::MenuButtonFgInactive]);
}

/// The overrides of a group are exactly the colours of the group whose
/// property the stylesheet sets, each with the value set for it, in the
/// order of the group.
pub proof fn law_overrides_are_the_set_colors(slots: Seq<ThemeColor>, colors: Map<Seq<char>, ColorModel>)
    ensures
        forall|i: int|
            0 <= i < overrides(slots, colors).len() ==> {
                &&& slots.contains((#[trigger] overrides(slots, colors)[i]).0)
                &&& colors.contains_key(css_name(overrides(slots, colors)[i].0))
                &&& overrides(slots, colors)[i].1 == colors[css_name(overrides(slots, colors)[i].0)]
            },
        forall|j: int|
            0 <= j < slots.len() && colors.contains_key(css_name(#[trigger] slots[j])) ==> exists|i: int|
                0 <= i < overrides(slots, colors).len() && overrides(slots, colors)[i].0 == slots[j],
    decreases slots.len(),
{
    if slots.len() > 0 {
        let init = slots.drop_last();
        law_overrides_are_the_set_colors(init, colors);
        let o = overrides(slots, colors);
        let oi = overrides(init, colors);
        let t = slots.last();
        assert forall|i: int| 0 <= i < o.len() implies {
            &&& slots.contains((#[trigger] o[i]).0)
            &&& colors.contains_key(css_name(o[i].0))
            &&& o[i].1 == colors[css_name(o[i].0)]
        } by {
            if i < oi.len() {
                assert(o[i] == oi[i]);
                let k = choose|k: int| 0 <= k < init.len() && init[k] == oi[i].0;
                assert(slots[k] == init[k]);
            } else {
                assert(o[i] == (t, colors[css_name(t)]));
                assert(slots[slots.len() - 1] == t);
            }
        }
        assert forall|j: int|
            0 <= j < slots.len() && colors.contains_key(css_name(#[trigger] slots[j])) implies exists|i: int|
                0 <= i < o.len() && o[i].0 == slots[j] by {
            if j < init.len() {
                assert(init[j] == slots[j]);
                let i = choose|i: int| 0 <= i < oi.len() && oi[i].0 == init[j];
                assert(o[i] == oi[i]);
            } else {
                assert(o[o.len() - 1] == (t, colors[css_name(t)]));
            }
        }
    }
}


/// Six hexadecimal digits give red, green and blue two digits each, most
/// significant first, and full opacity; eight digits add the alpha.
pub proof fn law_long_hex_channels(a: char, b: char, c: char, d: char, e: char, f: char, g: char, h: char)
    requires
        hex_digit(a) is Some,
        hex_digit(b) is Some,
        hex_digit(c) is Some,
        hex_digit(d) is Some,
        hex_digit(e) is Some,
        hex_digit(f) is Some,
        hex_digit(g) is Some,
        hex_digit(h) is Some,
    ensures
        hex_color(seq![a, b, c, d, e, f]) == Some(
            Color {
                r: (hex_digit(a).unwrap() * 16 + hex_digit(b).unwrap()) as u8,
                g: (hex_digit(c).unwrap() * 16 + hex_digit(d).unwrap()) as u8,
                b: (hex_digit(e).unwrap() * 16 + hex_digit(f).unwrap()) as u8,
                a: 255,
            },
        ),
        hex_color(seq![a, b, c, d, e, f, g, h]) == Some(
            Color {
                r: (hex_digit(a).unwrap() * 16 + hex_digit(b).unwrap()) as u8,
                g: (hex_digit(c).unwrap() * 16 + hex_digit(d).unwrap()) as u8,
                b: (hex_digit(e).unwrap() * 16 + hex_digit(f).unwrap()) as u8,
                a: (hex_digit(g).unwrap() * 16 + hex_digit(h).unwrap()) as u8,
            },
        ),
{
    lemma_hex_digit_small(a);
    lemma_hex_digit_small(b);
    lemma_hex_digit_small(c);
    lemma_hex_digit_small(d);
    lemma_hex_digit_small(e);
    lemma_hex_digit_small(f);
    lemma_hex_digit_small(g);
    lemma_hex_digit_small(h);
    lemma_radix16_two(a, b);
    lemma_radix16_two(c, d);
    lemma_radix16_two(e, f);
    lemma_radix16_two(g, h);
    let l6 = seq![a, b, c, d, e, f];
    let l8 = seq![a, b, c, d, e, f, g, h];
    assert(l6.subrange(0, 2) =~= seq![a, b]);
    assert(l6.subrange(2, 4) =~= seq![c, d]);
    assert(l6.subrange(4, 6) =~= seq![e, f]);
    assert(l8.subrange(0, 2) =~= seq![a, b]);
    assert(l8.subrange(2, 4) =~= seq![c, d]);
    assert(l8.subrange(4, 6) =~= seq![e, f]);
    assert(l8.subrange(6, 8) =~= seq![g, h]);
    assert(all_ascii(l6));
    assert(all_ascii(l8));
}

/// A leading `--` makes no difference to a property name: `--text-color`
/// and `text-color` name the same property (for a name without white space
/// at its ends that does not itself start with `--`).
pub proof fn law_leading_dashes_ignored(k: Seq<char>)
    requires
        trim(k) == k,
        !(k.len() >= 2 && k[0] == '-' && k[1] == '-'),
    ensures
        normalized_key(seq!['-', '-'] + k) == normalized_key(k),
{
    let x = seq!['-', '-'] + k;
    assert(x[0] == '-');
    assert(trim_start(x) == x);
    if k.len() > 0 {
        assert(x.last() == k.last());
        lemma_trim_ends(k);
        assert(trim_end(x) == x);
    } else {
        assert(x.last() == '-');
        assert(trim_end(x) == x);
    }
    assert(trim(x) == x);
    let t = lower(x);
    assert(t.skip(2) =~= lower(k));
    assert(lower(trim(k)) == lower(k));
}

proof fn lemma_trim_ends(k: Seq<char>)
    requires
        trim(k) == k,
        k.len() > 0,
    ensures
        !is_ws(k.last()),
{
    crate::laws::lemma_trim_shape(k);
}

} // verus!
