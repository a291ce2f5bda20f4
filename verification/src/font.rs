//! Font families, weights and sizes as a theme writes them.
use vstd::prelude::*;
use crate::color::{
    Numeral, all_digits, float_literal, is_float_literal, trim_end_all, trim_end_all_chars,
    without_plus,
};
use crate::text::{
    find_char, find_char_from, from_chars, is_text, lower, subrange, to_chars, to_lower, trim,
    trimmed,
};

verus! {

/// A font weight, from 1 (thinnest) to 1000 (heaviest).
#[derive(Clone, Copy, Debug, PartialEq, Eq, Structural)]
pub struct FontWeight(pub u16);

impl FontWeight {
    /// The weight `raw`, clamped to `1..=1000`.
    pub fn new(raw: u16) -> (w: FontWeight)
        ensures
            w == weight_new(raw),
    {
        if raw < 1 {
            FontWeight(1)
        } else if raw > 1000 {
            FontWeight(1000)
        } else {
            FontWeight(raw)
        }
    }

    /// The weight as a number.
    pub fn to_raw(self) -> (r: u16)
        ensures
            r == self.0,
    {
        self.0
    }
}

/// `FontWeight::new`: the value clamped to `1..=1000`.
pub open spec fn weight_new(raw: u16) -> FontWeight {
    if raw < 1 {
        FontWeight(1)
    } else if raw > 1000 {
        FontWeight(1000)
    } else {
        FontWeight(raw)
    }
}

/// The number that the decimal digits `d` spell.
pub open spec fn decimal_value(d: Seq<char>) -> int
    decreases d.len(),
{
    if d.len() == 0 {
        0
    } else {
        decimal_value(d.drop_last()) * 10 + ((d.last() as u32) - ('0' as u32))
    }
}

/// `str::parse::<u16>`: an optional `+`, at least one digit, a value that
/// fits.
pub open spec fn parse_u16_spec(s: Seq<char>) -> Option<u16> {
    let d = without_plus(s);
    if d.len() > 0 && all_digits(d) && decimal_value(d) <= 65535 {
        Some(decimal_value(d) as u16)
    } else {
        None
    }
}

/// The weights known by name.
pub open spec fn named_weight(s: Seq<char>) -> FontWeight {
    if s == "thin"@ || s == "100"@ {
        FontWeight(100)
    } else if s == "light"@ || s == "300"@ {
        FontWeight(300)
    } else if s == "regular"@ || s == "normal"@ || s == "400"@ {
        FontWeight(400)
    } else if s == "medium"@ || s == "500"@ {
        FontWeight(500)
    } else if s == "semi-bold"@ || s == "semibold"@ || s == "600"@ {
        FontWeight(600)
    } else if s == "bold"@ || s == "700"@ {
        FontWeight(700)
    } else if s == "extra-bold"@ || s == "extrabold"@ || s == "800"@ {
        FontWeight(800)
    } else if s == "black"@ || s == "heavy"@ || s == "900"@ {
        FontWeight(900)
    } else {
        FontWeight(400)
    }
}

/// The weight a theme value asks for: a number (clamped), else a name,
/// else regular.
pub open spec fn font_weight_of(input: Seq<char>) -> FontWeight {
    let s = lower(trim(input));
    match parse_u16_spec(s) {
        Some(n) => weight_new(n),
        None => named_weight(s),
    }
}

/// `str::parse::<u16>` on `v`.
fn parse_u16(v: &Vec<char>) -> (r: Option<u16>)
    ensures
        r == parse_u16_spec(v@),
{
    let start: usize = if v.len() > 0 && v[0] == '+' {
        1
    } else {
        0
    };
    let d = subrange(v, start, v.len());
    proof {
        if start == 1 {
            assert(d@ =~= v@.drop_first());
        } else {
            assert(d@ =~= v@);
        }
        assert(d@ == without_plus(v@));
    }
    if d.len() == 0 {
        return None;
    }
    let mut value: u32 = 0;
    let mut i: usize = 0;
    while i < d.len()
        invariant
            i <= d.len(),
            d@ == without_plus(v@),
            forall|j: int| 0 <= j < i ==> '0' <= #[trigger] d@[j] <= '9',
            value as int == if decimal_value(d@.take(i as int)) < 65536 {
                decimal_value(d@.take(i as int))
            } else {
                65536
            },
            decimal_value(d@.take(i as int)) >= 0,
        decreases d.len() - i,
    {
        let c = d[i];
        if !('0' <= c && c <= '9') {
            assert(!all_digits(d@));
            return None;
        }
        let digit = (c as u32) - ('0' as u32);
        proof {
            let t = d@.take(i + 1);
            assert(t.drop_last() =~= d@.take(i as int));
            assert(t.last() == c);
        }
        let next = value * 10 + digit;
        value = if next < 65536 {
            next
        } else {
            65536
        };
        i += 1;
    }
    assert(d@.take(d.len() as int) =~= d@);
    if value < 65536 {
        Some(value as u16)
    } else {
        None
    }
}

/// The weight that the (lower-cased, trimmed) name `s` stands for.
fn match_named_weight(s: &Vec<char>) -> (r: FontWeight)
    ensures
        r == named_weight(s@),
{
    if is_text(s, "thin") || is_text(s, "100") {
        FontWeight(100)
    } else if is_text(s, "light") || is_text(s, "300") {
        FontWeight(300)
    } else if is_text(s, "regular") || is_text(s, "normal") || is_text(s, "400") {
        FontWeight(400)
    } else if is_text(s, "medium") || is_text(s, "500") {
        FontWeight(500)
    } else if is_text(s, "semi-bold") || is_text(s, "semibold") || is_text(s, "600") {
        FontWeight(600)
    } else if is_text(s, "bold") || is_text(s, "700") {
        FontWeight(700)
    } else if is_text(s, "extra-bold") || is_text(s, "extrabold") || is_text(s, "800") {
        FontWeight(800)
    } else if is_text(s, "black") || is_text(s, "heavy") || is_text(s, "900") {
        FontWeight(900)
    } else {
        FontWeight(400)
    }
}

/// The weight that a theme value asks for.
pub fn parse_font_weight_chars(input: &Vec<char>) -> (r: FontWeight)
    ensures
        r == font_weight_of(input@),
{
    let s = to_lower(&trimmed(input));
    match parse_u16(&s) {
        Some(n) => FontWeight::new(n),
        None => match_named_weight(&s),
    }
}

/// The weight that a theme value asks for: a number is clamped to
/// `1..=1000`, a name gives its weight, anything else regular.
pub fn parse_font_weight(input: &str) -> (r: FontWeight)
    ensures
        r == font_weight_of(input@),
{
    parse_font_weight_chars(&to_chars(input))
}

/// A font family: one of the generic families, or a family by name.
#[derive(Clone, Debug, PartialEq, Eq)]
pub enum FontFamily {
    SystemUi,
    Monospace,
    SansSerif,
    Serif,
    Named(String),
}

/// What a `FontFamily` denotes.
pub enum FontFamilyModel {
    SystemUi,
    Monospace,
    SansSerif,
    Serif,
    Named(Seq<char>),
}

impl View for FontFamily {
    type V = FontFamilyModel;

    open spec fn view(&self) -> FontFamilyModel {
        match self {
            FontFamily::SystemUi => FontFamilyModel::SystemUi,
            FontFamily::Monospace => FontFamilyModel::Monospace,
            FontFamily::SansSerif => FontFamilyModel::SansSerif,
            FontFamily::Serif => FontFamilyModel::Serif,
            FontFamily::Named(name) => FontFamilyModel::Named(name@),
        }
    }
}

impl FontFamily {
    /// The family called `name`, whether or not such a font exists.
    pub fn new_unchecked(name: &str) -> (f: FontFamily)
        ensures
            f@ == FontFamilyModel::Named(name@),
    {
        FontFamily::Named(from_chars(&to_chars(name)))
    }
}

/// A quotation mark that may surround a family name.
pub open spec fn is_quote(c: char) -> bool {
    c == '\'' || c == '"'
}

/// `s` without its leading quotation marks.
pub open spec fn unquote_start(s: Seq<char>) -> Seq<char>
    decreases s.len(),
{
    if s.len() > 0 && is_quote(s[0]) {
        unquote_start(s.drop_first())
    } else {
        s
    }
}

/// `s` without its trailing quotation marks.
pub open spec fn unquote_end(s: Seq<char>) -> Seq<char>
    decreases s.len(),
{
    if s.len() > 0 && is_quote(s.last()) {
        unquote_end(s.drop_last())
    } else {
        s
    }
}

/// The text before the first `,` (all of it where there is none).
pub open spec fn first_entry(s: Seq<char>) -> Seq<char> {
    match find_char(s, ',') {
        Some(i) => s.take(i),
        None => s,
    }
}

/// The family that a theme value asks for: its first entry, trimmed and
/// unquoted; the generic names are recognised in any ASCII case.
pub open spec fn font_family_of(input: Seq<char>) -> FontFamilyModel {
    let first = trim(first_entry(input));
    let name = trim(unquote_end(unquote_start(first)));
    let l = lower(name);
    if l == "system-ui"@ || l == "system"@ {
        FontFamilyModel::SystemUi
    } else if l == "monospace"@ || l == "mono"@ {
        FontFamilyModel::Monospace
    } else if l == "sans-serif"@ || l == "sans"@ {
        FontFamilyModel::SansSerif
    } else if l == "serif"@ {
        FontFamilyModel::Serif
    } else {
        FontFamilyModel::Named(name)
    }
}

fn is_quote_char(c: char) -> (r: bool)
    ensures
        r == is_quote(c),
{
    c == '\'' || c == '"'
}

/// `v` without the quotation marks at its ends.
fn unquoted(v: &Vec<char>) -> (r: Vec<char>)
    ensures
        r@ == unquote_end(unquote_start(v@)),
{
    let mut lo: usize = 0;
    assert(v@.skip(0) =~= v@);
    while lo < v.len() && is_quote_char(v[lo])
        invariant
            lo <= v.len(),
            unquote_start(v@) == unquote_start(v@.skip(lo as int)),
        decreases v.len() - lo,
    {
        assert(v@.skip(lo as int).drop_first() =~= v@.skip(lo + 1));
        lo += 1;
    }
    let ghost t = v@.skip(lo as int);
    assert(unquote_start(t) == t);
    let mut hi: usize = v.len();
    assert(v@.subrange(lo as int, v.len() as int) =~= t);
    while hi > lo && is_quote_char(v[hi - 1])
        invariant
            lo <= hi <= v.len(),
            unquote_end(t) == unquote_end(v@.subrange(lo as int, hi as int)),
        decreases hi,
    {
        assert(v@.subrange(lo as int, hi as int).drop_last() =~= v@.subrange(lo as int, hi - 1));
        hi -= 1;
    }
    subrange(v, lo, hi)
}

/// The family that a theme value asks for.
pub fn parse_font_family_chars(input: &Vec<char>) -> (r: FontFamily)
    ensures
        r@ == font_family_of(input@),
{
    assert(input@.skip(0) =~= input@);
    let entry = match find_char_from(input, 0, ',') {
        Some(i) => {
            let e = subrange(input, 0, i);
            assert(e@ =~= input@.take(i as int));
            e
        },
        None => subrange(input, 0, input.len()),
    };
    assert(entry@ =~= first_entry(input@));
    let name = trimmed(&unquoted(&trimmed(&entry)));
    let l = to_lower(&name);
    if is_text(&l, "system-ui") || is_text(&l, "system") {
        FontFamily::SystemUi
    } else if is_text(&l, "monospace") || is_text(&l, "mono") {
        FontFamily::Monospace
    } else if is_text(&l, "sans-serif") || is_text(&l, "sans") {
        FontFamily::SansSerif
    } else if is_text(&l, "serif") {
        FontFamily::Serif
    } else {
        FontFamily::Named(from_chars(&name))
    }
}

/// The family that a theme value asks for: the first entry of a
/// comma-separated list, without quotation marks.
pub fn parse_font_family(input: &str) -> (r: FontFamily)
    ensures
        r@ == font_family_of(input@),
{
    parse_font_family_chars(&to_chars(input))
}

/// The number in a font size: trimmed, lower-cased, every trailing `px`,
/// then `pt`, `em` and `rem` removed, trimmed again; it must be a number
/// that `str::parse::<f64>` accepts.
pub open spec fn font_size_of(input: Seq<char>) -> Option<Seq<char>> {
    let s = lower(trim(input));
    let t = trim(
        trim_end_all(trim_end_all(trim_end_all(trim_end_all(s, "px"@), "pt"@), "em"@), "rem"@),
    );
    if is_float_literal(t) {
        Some(t)
    } else {
        None
    }
}

/// The number in a font size, if it has one.
pub fn parse_font_size_chars(input: &Vec<char>) -> (r: Option<Numeral>)
    ensures
        match r {
            Some(n) => font_size_of(input@) == Some(n@),
            None => font_size_of(input@) is None,
        },
{
    let s = to_lower(&trimmed(input));
    let a = trim_end_all_chars(&s, &to_chars("px"));
    let b = trim_end_all_chars(&a, &to_chars("pt"));
    let c = trim_end_all_chars(&b, &to_chars("em"));
    let d = trim_end_all_chars(&c, &to_chars("rem"));
    let t = trimmed(&d);
    if float_literal(&t) {
        Some(Numeral { text: from_chars(&t) })
    } else {
        None
    }
}

/// The number in a font size such as `13px` or `11pt`: the text that
/// `str::parse::<f64>` turns into the size.
pub fn parse_font_size(input: &str) -> (r: Option<Numeral>)
    ensures
        match r {
            Some(n) => font_size_of(input@) == Some(n@),
            None => font_size_of(input@) is None,
        },
{
    parse_font_size_chars(&to_chars(input))
}

} // verus!
