//! Properties that hold of the parsers on every input.
use vstd::prelude::*;
use crate::color::{
    color_of, color_safe, components, find_sep, first_sep_at, hex_color, hex_digit, is_sep,
    lemma_hex_digit_small, lemma_radix16_one, lemma_radix16_two,
};
use crate::css::{
    blocks_from, css_blocks, cut_line_comment, dash_to_underscore, lines, normalized_key,
    split_char, strip_all, strip_block,
};
use crate::font::font_weight_of;
use crate::text::{
    find_char, find_pair, is_ws, lemma_find_char_range, lower, lower_char, trim, trim_end,
    trim_start,
};
use crate::theme::{
    ThemeModel, apply_blocks, apply_declaration, apply_declarations, apply_font,
    declaration_parts, empty_theme, font_field_of, theme_blocks, theme_of,
};

verus! {

proof fn lemma_trim_start_shape(s: Seq<char>)
    ensures
        trim_start(s).len() == 0 || !is_ws(trim_start(s)[0]),
    decreases s.len(),
{
    if s.len() > 0 && is_ws(s[0]) {
        lemma_trim_start_shape(s.drop_first());
    }
}

proof fn lemma_trim_end_shape(s: Seq<char>)
    ensures
        trim_end(s).len() <= s.len(),
        trim_end(s) == s.take(trim_end(s).len() as int),
        trim_end(s).len() == 0 || !is_ws(trim_end(s).last()),
    decreases s.len(),
{
    if s.len() > 0 && is_ws(s.last()) {
        lemma_trim_end_shape(s.drop_last());
        assert(s.drop_last().take(trim_end(s).len() as int) =~= s.take(trim_end(s).len() as int));
    } else {
        assert(s.take(s.len() as int) =~= s);
    }
}

/// Trimming twice is trimming once.
pub proof fn lemma_trim_idempotent(s: Seq<char>)
    ensures
        trim(trim(s)) == trim(s),
{
    let a = trim_start(s);
    let t = trim_end(a);
    lemma_trim_start_shape(s);
    lemma_trim_end_shape(a);
    if t.len() > 0 {
        assert(t[0] == a[0]);
    }
    assert(trim_start(t) == t);
    lemma_trim_end_shape(t);
    assert(trim_end(t) == t);
}

/// White space around a colour does not change it: a value and the same
/// value trimmed parse to the same colour, and are equally safe to parse.
pub proof fn law_color_ignores_surrounding_space(s: Seq<char>)
    ensures
        color_of(trim(s)) == color_of(s),
        color_safe(trim(s)) == color_safe(s),
{
    lemma_trim_idempotent(s);
}

/// A three- or four-digit hexadecimal colour is the six- or eight-digit
/// colour with every digit doubled (`#abc` is `#aabbcc`).
pub proof fn law_short_hex_doubles(a: char, b: char, c: char, d: char)
    requires
        hex_digit(a) is Some,
        hex_digit(b) is Some,
        hex_digit(c) is Some,
        hex_digit(d) is Some,
    ensures
        hex_color(seq![a, b, c]) == hex_color(seq![a, a, b, b, c, c]),
        hex_color(seq![a, b, c, d]) == hex_color(seq![a, a, b, b, c, c, d, d]),
        hex_color(seq![a, b, c]) is Some,
{
    lemma_hex_digit_small(a);
    lemma_hex_digit_small(b);
    lemma_hex_digit_small(c);
    lemma_hex_digit_small(d);
    lemma_radix16_one(a);
    lemma_radix16_one(b);
    lemma_radix16_one(c);
    lemma_radix16_one(d);
    lemma_radix16_two(a, a);
    lemma_radix16_two(b, b);
    lemma_radix16_two(c, c);
    lemma_radix16_two(d, d);
    let s3 = seq![a, b, c];
    let s4 = seq![a, b, c, d];
    let l6 = seq![a, a, b, b, c, c];
    let l8 = seq![a, a, b, b, c, c, d, d];
    assert(s3.subrange(0, 1) =~= seq![a]);
    assert(s3.subrange(1, 2) =~= seq![b]);
    assert(s3.subrange(2, 3) =~= seq![c]);
    assert(s4.subrange(0, 1) =~= seq![a]);
    assert(s4.subrange(1, 2) =~= seq![b]);
    assert(s4.subrange(2, 3) =~= seq![c]);
    assert(s4.subrange(3, 4) =~= seq![d]);
    assert(l6.subrange(0, 2) =~= seq![a, a]);
    assert(l6.subrange(2, 4) =~= seq![b, b]);
    assert(l6.subrange(4, 6) =~= seq![c, c]);
    assert(l8.subrange(0, 2) =~= seq![a, a]);
    assert(l8.subrange(2, 4) =~= seq![b, b]);
    assert(l8.subrange(4, 6) =~= seq![c, c]);
    assert(l8.subrange(6, 8) =~= seq![d, d]);
    assert(crate::color::all_ascii(s3));
    assert(crate::color::all_ascii(s4));
    assert(crate::color::all_ascii(l6));
    assert(crate::color::all_ascii(l8));
}

/// A hexadecimal colour without alpha digits is opaque.
pub proof fn law_hex_without_alpha_is_opaque(h: Seq<char>)
    requires
        h.len() == 3 || h.len() == 6,
        hex_color(h) is Some,
    ensures
        hex_color(h).unwrap().a == 255,
{
}

/// A font weight is always within `1..=1000`.
pub proof fn law_font_weight_in_range(s: Seq<char>)
    ensures
        1 <= font_weight_of(s).0 <= 1000,
{
}

/// A normalized property name holds no `-` and no ASCII capital: names are
/// matched without regard to ASCII case or to `-` versus `_`.
pub proof fn law_normalized_key_form(k: Seq<char>)
    ensures
        forall|i: int|
            0 <= i < normalized_key(k).len() ==> {
                &&& #[trigger] normalized_key(k)[i] != '-'
                &&& !('A' <= normalized_key(k)[i] && normalized_key(k)[i] <= 'Z')
            },
{
    let t = lower(trim(k));
    let u = if t.len() >= 2 && t[0] == '-' && t[1] == '-' {
        t.skip(2)
    } else {
        t
    };
    assert forall|i: int| 0 <= i < normalized_key(k).len() implies {
        &&& #[trigger] normalized_key(k)[i] != '-'
        &&& !('A' <= normalized_key(k)[i] && normalized_key(k)[i] <= 'Z')
    } by {
        let j = if t.len() >= 2 && t[0] == '-' && t[1] == '-' {
            i + 2
        } else {
            i
        };
        assert(u[i] == t[j]);
        let c = trim(k)[j];
        assert(t[j] == lower_char(c));
        if 'A' <= c && c <= 'Z' {
            assert(('a' as u32) <= (c as u32) + 32 <= ('z' as u32));
            assert(lower_char(c) as u32 == (c as u32) + 32);
        }
        assert(normalized_key(k)[i] == dash_to_underscore(u[i]));
    }
}

proof fn lemma_least_sep(s: Seq<char>, j: int)
    requires
        0 <= j < s.len(),
        is_sep(s[j]),
    ensures
        exists|i: int| first_sep_at(s, i),
    decreases j,
{
    if forall|k: int| 0 <= k < j ==> !is_sep(#[trigger] s[k]) {
        assert(first_sep_at(s, j));
    } else {
        let k = choose|k: int| 0 <= k < j && is_sep(#[trigger] s[k]);
        lemma_least_sep(s, k);
    }
}

/// Every colour component is non-empty and holds no separator (`,`, `/`,
/// white space), so trimming it changes nothing.
pub proof fn law_components_are_clean(s: Seq<char>)
    ensures
        forall|i: int|
            0 <= i < components(s).len() ==> {
                &&& (#[trigger] components(s)[i]).len() > 0
                &&& forall|j: int|
                    0 <= j < components(s)[i].len() ==> !is_sep(#[trigger] components(s)[i][j])
            },
    decreases s.len(),
{
    match find_sep(s) {
        None => {
            assert forall|j: int| 0 <= j < s.len() implies !is_sep(s[j]) by {
                if is_sep(s[j]) {
                    lemma_least_sep(s, j);
                }
            }
        },
        Some(k) => {
            let rest = s.skip(k + 1);
            law_components_are_clean(rest);
            let head: Seq<Seq<char>> = if k > 0 {
                seq![s.take(k)]
            } else {
                seq![]
            };
            assert(components(s) == head + components(rest));
            assert forall|i: int| 0 <= i < components(s).len() implies {
                &&& (#[trigger] components(s)[i]).len() > 0
                &&& forall|j: int|
                    0 <= j < components(s)[i].len() ==> !is_sep(#[trigger] components(s)[i][j])
            } by {
                if i < head.len() {
                    assert(components(s)[i] == s.take(k));
                } else {
                    assert(components(s)[i] == components(rest)[i - head.len()]);
                }
            }
        },
    }
}

/// Where a stylesheet has a `{`, no block body holds a `}`.
pub proof fn law_blocks_hold_no_close_brace(s: Seq<char>)
    ensures
        forall|i: int, j: int|
            0 <= i < blocks_from(s).len() && 0 <= j < blocks_from(s)[i].len() ==> #[trigger] blocks_from(
                s,
            )[i][j] != '}',
    decreases s.len(),
{
    lemma_find_char_range(s, '{');
    match find_char(s, '{') {
        None => {},
        Some(k) => {
            let after = s.skip(k + 1);
            lemma_find_char_range(after, '}');
            match find_char(after, '}') {
                None => {
                    assert(blocks_from(s) == seq![after]);
                },
                Some(e) => {
                    let rest = after.skip(e + 1);
                    law_blocks_hold_no_close_brace(rest);
                    assert(blocks_from(s) == seq![after.take(e)] + blocks_from(rest));
                    assert forall|i: int, j: int|
                        0 <= i < blocks_from(s).len() && 0 <= j < blocks_from(s)[i].len() implies #[trigger] blocks_from(
                        s,
                    )[i][j] != '}' by {
                        if i > 0 {
                            assert(blocks_from(s)[i] == blocks_from(rest)[i - 1]);
                        }
                    }
                },
            }
        },
    }
}

/// Text without `{` is a single block.
pub proof fn law_text_without_braces_is_one_block(s: Seq<char>)
    requires
        forall|i: int| 0 <= i < s.len() ==> s[i] != '{',
    ensures
        css_blocks(s) == seq![s],
{
    crate::text::lemma_find_char_none(s, '{');
}

/// One line without comment markers passes through comment removal
/// unchanged.
pub proof fn law_comment_free_line_unchanged(s: Seq<char>)
    requires
        find_pair(s, '/', '*') is None,
        find_pair(s, '/', '/') is None,
        forall|i: int| 0 <= i < s.len() ==> s[i] != '\n',
    ensures
        strip_all(s) == s,
{
    assert(strip_block(s) == s);
    crate::text::lemma_find_char_none(s, '\n');
    if s.len() > 0 {
        assert(lines(s) == seq![s]);
        assert(lines(s).map_values(|l: Seq<char>| cut_line_comment(l)) =~= seq![s]);
    } else {
        assert(lines(s).map_values(|l: Seq<char>| cut_line_comment(l)) =~= Seq::<
            Seq<char>,
        >::empty());
    }
}

/// No property name in the colour table is empty or names a font setting.
pub open spec fn colors_are_colors(t: ThemeModel) -> bool {
    forall|k: Seq<char>| #[trigger]
        t.colors.contains_key(k) ==> k.len() > 0 && font_field_of(k) is None
}

proof fn lemma_declaration_keeps(t: ThemeModel, line: Seq<char>)
    requires
        colors_are_colors(t),
    ensures
        colors_are_colors(apply_declaration(t, line)),
{
    match declaration_parts(line) {
        None => {},
        Some((key, val)) => {
            if key.len() > 0 && val.len() > 0 {
                match font_field_of(key) {
                    Some(f) => {
                        assert(apply_font(t, f, val).colors == t.colors);
                    },
                    None => {},
                }
            }
        },
    }
}

proof fn lemma_declarations_keep(t: ThemeModel, ds: Seq<Seq<char>>)
    requires
        colors_are_colors(t),
    ensures
        colors_are_colors(apply_declarations(t, ds)),
    decreases ds.len(),
{
    if ds.len() > 0 {
        lemma_declarations_keep(t, ds.drop_last());
        lemma_declaration_keeps(apply_declarations(t, ds.drop_last()), ds.last());
    }
}

proof fn lemma_blocks_keep(t: ThemeModel, bs: Seq<Seq<char>>)
    requires
        colors_are_colors(t),
    ensures
        colors_are_colors(apply_blocks(t, bs)),
    decreases bs.len(),
{
    if bs.len() > 0 {
        lemma_blocks_keep(t, bs.drop_last());
        lemma_declarations_keep(
            apply_blocks(t, bs.drop_last()),
            split_char(bs.last(), ';'),
        );
    }
}

/// Font properties never land in the colour table, nor does an empty name.
pub proof fn law_font_properties_are_not_colors(css: Seq<char>)
    ensures
        colors_are_colors(theme_of(css)),
{
    lemma_blocks_keep(empty_theme(), theme_blocks(css));
}

/// A colour declaration decides the colour of its property, whatever the
/// declarations before it said.
pub proof fn law_last_color_wins(t: ThemeModel, ds: Seq<Seq<char>>, d: Seq<char>)
    requires
        declaration_parts(d) matches Some((key, val)) && key.len() > 0 && val.len() > 0
            && font_field_of(key) is None && color_of(val) is Some,
    ensures
        ({
            let (key, val) = declaration_parts(d).unwrap();
            &&& apply_declarations(t, ds.push(d)).colors.contains_key(key)
            &&& apply_declarations(t, ds.push(d)).colors[key] == color_of(val).unwrap()
        }),
{
    assert(ds.push(d).drop_last() =~= ds);
}

/// A stylesheet that is one declaration, without comment markers, braces,
/// `;` or line breaks, sets exactly what that declaration sets.
pub proof fn law_single_declaration(css: Seq<char>)
    requires
        find_pair(css, '/', '*') is None,
        find_pair(css, '/', '/') is None,
        forall|i: int|
            0 <= i < css.len() ==> css[i] != '\n' && css[i] != '{' && css[i] != ';',
    ensures
        theme_of(css) == apply_declaration(empty_theme(), css),
{
    law_comment_free_line_unchanged(css);
    law_text_without_braces_is_one_block(css);
    crate::text::lemma_find_char_none(css, ';');
    assert(theme_blocks(css) == seq![css]);
    assert(split_char(css, ';') == seq![css]);
    let bs = theme_blocks(css);
    assert(bs.drop_last() =~= Seq::<Seq<char>>::empty());
    let ds = split_char(css, ';');
    assert(ds.drop_last() =~= Seq::<Seq<char>>::empty());
    assert(bs.last() == css);
    assert(ds.last() == css);
    assert(apply_blocks(empty_theme(), bs.drop_last()) == empty_theme());
    assert(apply_declarations(empty_theme(), ds.drop_last()) == empty_theme());
    assert(apply_blocks(empty_theme(), bs) == apply_declarations(empty_theme(), ds));
}

/// Trimmed text starts and ends with a character that is not white space.
pub(crate) proof fn lemma_trim_shape(s: Seq<char>)
    ensures
        trim(s).len() == 0 || (!is_ws(trim(s)[0]) && !is_ws(trim(s).last())),
{
    let a = trim_start(s);
    lemma_trim_start_shape(s);
    lemma_trim_end_shape(a);
    if trim(s).len() > 0 {
        assert(trim(s)[0] == a[0]);
    }
}

} // verus!
