//! Colour values as a theme writes them: `#rgb`, `#rrggbbaa`, `rgb(..)`,
//! `hsl(..)` and a few names.
use vstd::prelude::*;
use crate::text::{
    find_char, find_char_from, is_text, is_whitespace, is_ws, lower,
    rfind_char, rfind_char_in, subrange, to_chars, to_lower, trim, trimmed,
};

verus! {

/// A colour as four 8-bit channels, alpha last.
#[derive(Clone, Copy, Debug, PartialEq, Eq, Structural)]
pub struct Color {
    pub r: u8,
    pub g: u8,
    pub b: u8,
    pub a: u8,
}

impl Color {
    /// The colour with the given red, green, blue and alpha channels.
    pub fn rgba8(r: u8, g: u8, b: u8, a: u8) -> (c: Color)
        ensures
            c == (Color { r, g, b, a }),
    {
        Color { r, g, b, a }
    }

    /// The opaque colour with the given red, green and blue channels.
    pub fn rgb8(r: u8, g: u8, b: u8) -> (c: Color)
        ensures
            c == (Color { r, g, b, a: 255 }),
    {
        Color { r, g, b, a: 255 }
    }

    /// The opaque grey whose three channels are `grey`.
    pub fn grey8(grey: u8) -> (c: Color)
        ensures
            c == (Color { r: grey, g: grey, b: grey, a: 255 }),
    {
        Color { r: grey, g: grey, b: grey, a: 255 }
    }
}

/// The value of a hexadecimal digit (`char::to_digit(16)`).
pub open spec fn hex_digit(c: char) -> Option<u8> {
    if '0' <= c && c <= '9' {
        Some(((c as u32) - ('0' as u32)) as u8)
    } else if 'a' <= c && c <= 'f' {
        Some(((c as u32) - ('a' as u32) + 10) as u8)
    } else if 'A' <= c && c <= 'F' {
        Some(((c as u32) - ('A' as u32) + 10) as u8)
    } else {
        None
    }
}

/// The number that the hexadecimal digits `d` spell.
pub open spec fn hex_digits_value(d: Seq<char>) -> int
    decreases d.len(),
{
    if d.len() == 0 {
        0
    } else {
        hex_digits_value(d.drop_last()) * 16 + hex_digit(d.last()).unwrap() as int
    }
}

/// `u8::from_str_radix(t, 16)`: an optional `+`, then at least one
/// hexadecimal digit, the value below 256.
pub open spec fn radix16_u8(t: Seq<char>) -> Option<u8> {
    let d = without_plus(t);
    if d.len() > 0 && (forall|i: int| 0 <= i < d.len() ==> (#[trigger] hex_digit(d[i])) is Some)
        && hex_digits_value(d) < 256 {
        Some(hex_digits_value(d) as u8)
    } else {
        None
    }
}

/// `t` without one leading `+`.
pub open spec fn without_plus(t: Seq<char>) -> Seq<char> {
    if t.len() > 0 && t[0] == '+' {
        t.drop_first()
    } else {
        t
    }
}

/// Every character is ASCII.
pub open spec fn all_ascii(s: Seq<char>) -> bool {
    forall|i: int| 0 <= i < s.len() ==> (#[trigger] s[i] as u32) < 0x80
}

/// How many bytes UTF-8 spends on `c`.
pub open spec fn utf8_width(c: char) -> nat {
    if (c as u32) < 0x80 {
        1
    } else if (c as u32) < 0x800 {
        2
    } else if (c as u32) < 0x10000 {
        3
    } else {
        4
    }
}

/// The length of `s` in bytes (`str::len`).
pub open spec fn byte_len(s: Seq<char>) -> nat
    decreases s.len(),
{
    if s.len() == 0 {
        0
    } else {
        byte_len(s.drop_last()) + utf8_width(s.last())
    }
}

/// The one-byte channels of `#rgb`/`#rgba`, read in order from channel `i`
/// until one is not a hexadecimal digit, never cut a character in two: the
/// first such channel holds an ASCII character.
pub open spec fn short_channels_safe(h: Seq<char>, i: int, count: int) -> bool
    decreases count - i,
{
    if i >= count || i >= h.len() {
        true
    } else if utf8_width(h[i]) != 1 {
        false
    } else if hex_digit(h[i]) is None {
        true
    } else {
        short_channels_safe(h, i + 1, count)
    }
}

/// The two-byte channels of `#rrggbb`/`#rrggbbaa`, read in order from
/// channel `j` until one does not parse, never cut a character in two: the
/// first such channel is two ASCII characters or one two-byte character.
pub open spec fn long_channels_safe(h: Seq<char>, j: int, count: int) -> bool
    decreases count - j,
{
    if j >= count || 2 * j >= h.len() {
        true
    } else if utf8_width(h[2 * j]) == 2 {
        true
    } else if utf8_width(h[2 * j]) != 1 {
        false
    } else if 2 * j + 1 >= h.len() {
        true
    } else if utf8_width(h[2 * j + 1]) != 1 {
        false
    } else if radix16_u8(seq![h[2 * j], h[2 * j + 1]]) is None {
        true
    } else {
        long_channels_safe(h, j + 1, count)
    }
}

/// The text after `#` can be cut into channels, the way the byte slicing
/// of `parse_hex` reads them, without cutting a character in two; other
/// text makes that slicing panic.
pub open spec fn hex_safe(h: Seq<char>) -> bool {
    let n = byte_len(h);
    if n == 3 {
        short_channels_safe(h, 0, 3)
    } else if n == 4 {
        short_channels_safe(h, 0, 4)
    } else if n == 6 {
        long_channels_safe(h, 0, 3)
    } else if n == 8 {
        long_channels_safe(h, 0, 4)
    } else {
        true
    }
}

/// `#rgb` / `#rgba`: one digit per channel, repeated (`f` is `ff`).
pub open spec fn short_hex(h: Seq<char>, with_alpha: bool) -> Option<Color> {
    let r = radix16_u8(h.subrange(0, 1));
    let g = radix16_u8(h.subrange(1, 2));
    let b = radix16_u8(h.subrange(2, 3));
    let a = if with_alpha {
        radix16_u8(h.subrange(3, 4))
    } else {
        Some(15u8)
    };
    if r is Some && g is Some && b is Some && a is Some {
        Some(
            Color {
                r: (r.unwrap() * 17) as u8,
                g: (g.unwrap() * 17) as u8,
                b: (b.unwrap() * 17) as u8,
                a: (a.unwrap() * 17) as u8,
            },
        )
    } else {
        None
    }
}

/// `#rrggbb` / `#rrggbbaa`: two digits per channel.
pub open spec fn long_hex(h: Seq<char>, with_alpha: bool) -> Option<Color> {
    let r = radix16_u8(h.subrange(0, 2));
    let g = radix16_u8(h.subrange(2, 4));
    let b = radix16_u8(h.subrange(4, 6));
    let a = if with_alpha {
        radix16_u8(h.subrange(6, 8))
    } else {
        Some(255u8)
    };
    if r is Some && g is Some && b is Some && a is Some {
        Some(Color { r: r.unwrap(), g: g.unwrap(), b: b.unwrap(), a: a.unwrap() })
    } else {
        None
    }
}

/// The colour that the text after `#` spells.  Text that is not all ASCII
/// spells none (where it can be sliced at all, see `hex_safe`).
pub open spec fn hex_color(h: Seq<char>) -> Option<Color> {
    if !all_ascii(h) {
        None
    } else if h.len() == 3 {
        short_hex(h, false)
    } else if h.len() == 4 {
        short_hex(h, true)
    } else if h.len() == 6 {
        long_hex(h, false)
    } else if h.len() == 8 {
        long_hex(h, true)
    } else {
        None
    }
}

/// The colours known by name (ASCII case ignored).
pub open spec fn named_color(s: Seq<char>) -> Option<Color> {
    let l = lower(s);
    if l == "black"@ {
        Some(Color { r: 0, g: 0, b: 0, a: 255 })
    } else if l == "white"@ {
        Some(Color { r: 255, g: 255, b: 255, a: 255 })
    } else if l == "transparent"@ {
        Some(Color { r: 0, g: 0, b: 0, a: 0 })
    } else if l == "red"@ {
        Some(Color { r: 255, g: 0, b: 0, a: 255 })
    } else if l == "green"@ {
        Some(Color { r: 0, g: 128, b: 0, a: 255 })
    } else if l == "blue"@ {
        Some(Color { r: 0, g: 0, b: 255, a: 255 })
    } else if l == "gray"@ || l == "grey"@ {
        Some(Color { r: 128, g: 128, b: 128, a: 255 })
    } else {
        None
    }
}

pub(crate) proof fn lemma_hex_digit_small(c: char)
    ensures
        hex_digit(c) matches Some(v) ==> v < 16,
{
}

fn hex_value(c: char) -> (r: Option<u8>)
    ensures
        r == hex_digit(c),
        r matches Some(v) ==> v < 16,
{
    if '0' <= c && c <= '9' {
        Some(((c as u32) - ('0' as u32)) as u8)
    } else if 'a' <= c && c <= 'f' {
        Some(((c as u32) - ('a' as u32) + 10) as u8)
    } else if 'A' <= c && c <= 'F' {
        Some(((c as u32) - ('A' as u32) + 10) as u8)
    } else {
        None
    }
}

proof fn lemma_digits_one(c: char)
    requires
        hex_digit(c) is Some,
    ensures
        hex_digits_value(seq![c]) == hex_digit(c).unwrap() as int,
{
    let t = seq![c];
    assert(t.drop_last() =~= Seq::<char>::empty());
    assert(hex_digits_value(Seq::<char>::empty()) == 0);
    assert(t.last() == c);
}

pub(crate) proof fn lemma_radix16_one(c: char)
    ensures
        radix16_u8(seq![c]) == hex_digit(c),
{
    let t = seq![c];
    assert(t[0] == c);
    lemma_hex_digit_small(c);
    if c != '+' {
        assert(without_plus(t) == t);
    }
    if c != '+' {
        if hex_digit(c) is Some {
            lemma_digits_one(c);
            assert(forall|i: int| 0 <= i < t.len() ==> (#[trigger] hex_digit(t[i])) is Some);
        } else {
            assert(hex_digit(t[0]) is None);
        }
    } else {
        assert(t.drop_first().len() == 0);
    }
}

pub(crate) proof fn lemma_radix16_two(c0: char, c1: char)
    ensures
        radix16_u8(seq![c0, c1]) == if c0 == '+' {
            hex_digit(c1)
        } else if hex_digit(c0) is Some && hex_digit(c1) is Some {
            Some((hex_digit(c0).unwrap() * 16 + hex_digit(c1).unwrap()) as u8)
        } else {
            None
        },
{
    let t = seq![c0, c1];
    assert(t[0] == c0 && t[1] == c1);
    if c0 != '+' {
        assert(without_plus(t) == t);
    }
    lemma_hex_digit_small(c0);
    lemma_hex_digit_small(c1);
    if c0 == '+' {
        assert(t.drop_first() =~= seq![c1]);
        lemma_radix16_one(c1);
    } else {
        if hex_digit(c0) is Some && hex_digit(c1) is Some {
            lemma_digits_one(c0);
            assert(t.drop_last() =~= seq![c0]);
            assert(t.last() == c1);
            assert(hex_digits_value(t) == hex_digit(c0).unwrap() * 16 + hex_digit(c1).unwrap());
            assert(forall|i: int| 0 <= i < t.len() ==> (#[trigger] hex_digit(t[i])) is Some);
        } else if hex_digit(c0) is None {
            assert(hex_digit(t[0]) is None);
        } else {
            assert(hex_digit(t[1]) is None);
        }
    }
}

/// `u8::from_str_radix` on the two characters `h[i] h[i + 1]`.
fn hex_pair(h: &Vec<char>, i: usize) -> (r: Option<u8>)
    requires
        i + 2 <= h.len(),
    ensures
        r == radix16_u8(h@.subrange(i as int, i + 2)),
{
    proof {
        assert(h@.subrange(i as int, i + 2) =~= seq![h@[i as int], h@[i + 1]]);
        lemma_radix16_two(h@[i as int], h@[i + 1]);
    }
    if h[i] == '+' {
        hex_value(h[i + 1])
    } else {
        match (hex_value(h[i]), hex_value(h[i + 1])) {
            (Some(x), Some(y)) => Some(x * 16 + y),
            _ => None,
        }
    }
}

/// `u8::from_str_radix` on the one character `h[i]`.
fn hex_single(h: &Vec<char>, i: usize) -> (r: Option<u8>)
    requires
        i < h.len(),
    ensures
        r == radix16_u8(h@.subrange(i as int, i + 1)),
        r matches Some(v) ==> v < 16,
{
    proof {
        assert(h@.subrange(i as int, i + 1) =~= seq![h@[i as int]]);
        lemma_radix16_one(h@[i as int]);
    }
    hex_value(h[i])
}

fn parse_hex_short(h: &Vec<char>, with_alpha: bool) -> (r: Option<Color>)
    requires
        h.len() == if with_alpha {
            4int
        } else {
            3int
        },
    ensures
        r == short_hex(h@, with_alpha),
{
    let r = hex_single(h, 0);
    let g = hex_single(h, 1);
    let b = hex_single(h, 2);
    let a = if with_alpha {
        hex_single(h, 3)
    } else {
        Some(15u8)
    };
    match (r, g, b, a) {
        (Some(r), Some(g), Some(b), Some(a)) => Some(Color { r: r * 17, g: g * 17, b: b * 17, a: a * 17 }),
        _ => None,
    }
}

fn parse_hex_long(h: &Vec<char>, with_alpha: bool) -> (r: Option<Color>)
    requires
        h.len() == if with_alpha {
            8int
        } else {
            6int
        },
    ensures
        r == long_hex(h@, with_alpha),
{
    let r = hex_pair(h, 0);
    let g = hex_pair(h, 2);
    let b = hex_pair(h, 4);
    let a = if with_alpha {
        hex_pair(h, 6)
    } else {
        Some(255u8)
    };
    match (r, g, b, a) {
        (Some(r), Some(g), Some(b), Some(a)) => Some(Color { r, g, b, a }),
        _ => None,
    }
}

fn is_all_ascii(h: &Vec<char>) -> (r: bool)
    ensures
        r == all_ascii(h@),
{
    let mut i: usize = 0;
    while i < h.len()
        invariant
            i <= h.len(),
            forall|j: int| 0 <= j < i ==> (#[trigger] h@[j] as u32) < 0x80,
        decreases h.len() - i,
    {
        if (h[i] as u32) >= 0x80 {
            return false;
        }
        i += 1;
    }
    true
}

/// The colour that the text `h` after `#` spells.
fn parse_hex(h: &Vec<char>) -> (r: Option<Color>)
    ensures
        r == hex_color(h@),
{
    if !is_all_ascii(h) {
        None
    } else if h.len() == 3 {
        parse_hex_short(h, false)
    } else if h.len() == 4 {
        parse_hex_short(h, true)
    } else if h.len() == 6 {
        parse_hex_long(h, false)
    } else if h.len() == 8 {
        parse_hex_long(h, true)
    } else {
        None
    }
}

/// The colour that the name `s` stands for.
fn parse_named(s: &Vec<char>) -> (r: Option<Color>)
    ensures
        r == named_color(s@),
{
    let l = to_lower(s);
    if is_text(&l, "black") {
        Some(Color::rgb8(0, 0, 0))
    } else if is_text(&l, "white") {
        Some(Color::rgb8(255, 255, 255))
    } else if is_text(&l, "transparent") {
        Some(Color::rgba8(0, 0, 0, 0))
    } else if is_text(&l, "red") {
        Some(Color::rgb8(255, 0, 0))
    } else if is_text(&l, "green") {
        Some(Color::rgb8(0, 128, 0))
    } else if is_text(&l, "blue") {
        Some(Color::rgb8(0, 0, 255))
    } else if is_text(&l, "gray") || is_text(&l, "grey") {
        Some(Color::grey8(128))
    } else {
        None
    }
}

/// An ASCII decimal digit.
pub open spec fn is_digit(c: char) -> bool {
    '0' <= c && c <= '9'
}

pub open spec fn all_digits(s: Seq<char>) -> bool {
    forall|i: int| 0 <= i < s.len() ==> is_digit(#[trigger] s[i])
}

/// Digits with at most one `.` among them, and at least one digit.
pub open spec fn is_mantissa(m: Seq<char>) -> bool {
    match find_char(m, '.') {
        None => m.len() >= 1 && all_digits(m),
        Some(p) => m.len() >= 2 && all_digits(m.take(p)) && all_digits(m.skip(p + 1)),
    }
}

/// `t` without one leading `+` or `-`.
pub open spec fn without_sign(t: Seq<char>) -> Seq<char> {
    if t.len() > 0 && (t[0] == '+' || t[0] == '-') {
        t.drop_first()
    } else {
        t
    }
}

/// An optional sign, then at least one digit.
pub open spec fn is_exponent(x: Seq<char>) -> bool {
    let d = without_sign(x);
    d.len() >= 1 && all_digits(d)
}

/// A mantissa, optionally followed by `e` and an exponent.
pub open spec fn is_decimal(l: Seq<char>) -> bool {
    match find_char(l, 'e') {
        None => is_mantissa(l),
        Some(k) => is_mantissa(l.take(k)) && is_exponent(l.skip(k + 1)),
    }
}

/// The text is one that `str::parse::<f64>` accepts: the grammar that the
/// standard library documents, ASCII case ignored.
pub open spec fn is_float_literal(s: Seq<char>) -> bool {
    let l = lower(without_sign(s));
    ||| l == "inf"@
    ||| l == "infinity"@
    ||| l == "nan"@
    ||| is_decimal(l)
}

fn all_digits_in(v: &Vec<char>, lo: usize, hi: usize) -> (r: bool)
    requires
        lo <= hi <= v.len(),
    ensures
        r == all_digits(v@.subrange(lo as int, hi as int)),
{
    let ghost s = v@.subrange(lo as int, hi as int);
    let mut i: usize = lo;
    while i < hi
        invariant
            lo <= i <= hi <= v.len(),
            s == v@.subrange(lo as int, hi as int),
            forall|j: int| 0 <= j < i - lo ==> is_digit(#[trigger] s[j]),
        decreases hi - i,
    {
        if !('0' <= v[i] && v[i] <= '9') {
            assert(!is_digit(s[i - lo]));
            return false;
        }
        i += 1;
    }
    true
}

fn mantissa_in(v: &Vec<char>, lo: usize, hi: usize) -> (r: bool)
    requires
        lo <= hi <= v.len(),
    ensures
        r == is_mantissa(v@.subrange(lo as int, hi as int)),
{
    let m = subrange(v, lo, hi);
    assert(m@.skip(0) =~= m@);
    assert(m@.subrange(0, m.len() as int) =~= m@);
    match find_char_from(&m, 0, '.') {
        None => m.len() >= 1 && all_digits_in(&m, 0, m.len()),
        Some(p) => {
            assert(m@.subrange(0, p as int) =~= m@.take(p as int));
            assert(m@.subrange(p + 1, m.len() as int) =~= m@.skip(p + 1));
            m.len() >= 2 && all_digits_in(&m, 0, p) && all_digits_in(&m, p + 1, m.len())
        },
    }
}

fn exponent_in(v: &Vec<char>, lo: usize, hi: usize) -> (r: bool)
    requires
        lo <= hi <= v.len(),
    ensures
        r == is_exponent(v@.subrange(lo as int, hi as int)),
{
    let ghost x = v@.subrange(lo as int, hi as int);
    let start = if lo < hi && (v[lo] == '+' || v[lo] == '-') {
        assert(x.drop_first() =~= v@.subrange(lo + 1, hi as int));
        lo + 1
    } else {
        assert(without_sign(x) == x);
        lo
    };
    hi - start >= 1 && all_digits_in(v, start, hi)
}

/// Whether `str::parse::<f64>` accepts `v`.
pub fn float_literal(v: &Vec<char>) -> (r: bool)
    ensures
        r == is_float_literal(v@),
{
    let start: usize = if v.len() > 0 && (v[0] == '+' || v[0] == '-') {
        1
    } else {
        0
    };
    let u = subrange(v, start, v.len());
    proof {
        if start == 1 {
            assert(u@ =~= v@.drop_first());
        } else {
            assert(u@ =~= v@);
        }
    }
    let l = to_lower(&u);
    if is_text(&l, "inf") || is_text(&l, "infinity") || is_text(&l, "nan") {
        return true;
    }
    assert(l@.skip(0) =~= l@);
    match find_char_from(&l, 0, 'e') {
        None => {
            assert(l@.subrange(0, l.len() as int) =~= l@);
            mantissa_in(&l, 0, l.len())
        },
        Some(k) => {
            assert(l@.subrange(0, k as int) =~= l@.take(k as int));
            assert(l@.subrange(k + 1, l.len() as int) =~= l@.skip(k + 1));
            mantissa_in(&l, 0, k) && exponent_in(&l, k + 1, l.len())
        },
    }
}

/// A number as written, in a form that `str::parse::<f64>` accepts.
#[derive(Debug, PartialEq, Eq)]
pub struct Numeral {
    pub text: String,
}

impl View for Numeral {
    type V = Seq<char>;

    open spec fn view(&self) -> Seq<char> {
        self.text@
    }
}

impl Numeral {
    /// A numeral with the same text.
    pub fn duplicate(&self) -> (r: Numeral)
        ensures
            r@ == self@,
    {
        Numeral { text: self.text.clone() }
    }
}

/// A colour component as written: a number, perhaps with a `%` after it.
pub struct ComponentModel {
    pub percent: bool,
    pub number: Seq<char>,
}

/// A colour component: a number, and whether a `%` followed it.
#[derive(Debug, PartialEq, Eq)]
pub struct Component {
    pub percent: bool,
    pub number: Numeral,
}

impl View for Component {
    type V = ComponentModel;

    open spec fn view(&self) -> ComponentModel {
        ComponentModel { percent: self.percent, number: self.number@ }
    }
}

impl Component {
    /// A component with the same sign and number.
    pub fn duplicate(&self) -> (r: Component)
        ensures
            r@ == self@,
    {
        Component { percent: self.percent, number: self.number.duplicate() }
    }
}

/// A component: a number, or a number and `%`.
pub open spec fn component_of(s: Seq<char>) -> Option<ComponentModel> {
    if s.len() > 0 && s.last() == '%' {
        if is_float_literal(s.drop_last()) {
            Some(ComponentModel { percent: true, number: s.drop_last() })
        } else {
            None
        }
    } else if is_float_literal(s) {
        Some(ComponentModel { percent: false, number: s })
    } else {
        None
    }
}

/// `s` ends with `p`.
pub open spec fn ends_with(s: Seq<char>, p: Seq<char>) -> bool {
    s.len() >= p.len() && s.skip(s.len() - p.len()) == p
}

/// `str::trim_end_matches` with a text pattern: every trailing copy of `p`
/// removed.
pub open spec fn trim_end_all(s: Seq<char>, p: Seq<char>) -> Seq<char>
    decreases s.len(),
{
    if p.len() > 0 && ends_with(s, p) {
        trim_end_all(s.take(s.len() - p.len()), p)
    } else {
        s
    }
}

/// A hue: a number, with any `deg` after it removed.
pub open spec fn hue_of(s: Seq<char>) -> Option<Seq<char>> {
    let t = trim_end_all(s, "deg"@);
    if is_float_literal(t) {
        Some(t)
    } else {
        None
    }
}

/// Whether `v` ends with `p`.
fn ends_with_chars(v: &Vec<char>, n: usize, p: &Vec<char>) -> (r: bool)
    requires
        n <= v.len(),
    ensures
        r == ends_with(v@.take(n as int), p@),
{
    if n < p.len() {
        return false;
    }
    let off = n - p.len();
    let mut i: usize = 0;
    while i < p.len()
        invariant
            off + p.len() == n <= v.len(),
            i <= p.len(),
            forall|j: int| 0 <= j < i ==> v@[off + j] == p@[j],
        decreases p.len() - i,
    {
        if v[off + i] != p[i] {
            assert(v@.take(n as int).skip(off as int)[i as int] != p@[i as int]);
            return false;
        }
        i += 1;
    }
    assert(v@.take(n as int).skip(off as int) =~= p@);
    true
}

/// `v` with every trailing copy of `p` removed.
pub fn trim_end_all_chars(v: &Vec<char>, p: &Vec<char>) -> (r: Vec<char>)
    ensures
        r@ == trim_end_all(v@, p@),
{
    let mut n: usize = v.len();
    assert(v@.take(n as int) =~= v@);
    while p.len() > 0 && ends_with_chars(v, n, p)
        invariant
            n <= v.len(),
            trim_end_all(v@, p@) == trim_end_all(v@.take(n as int), p@),
        decreases n,
    {
        assert(v@.take(n as int).take(n - p.len()) =~= v@.take(n - p.len()));
        n = n - p.len();
    }
    let r = subrange(v, 0, n);
    assert(r@ =~= v@.take(n as int));
    r
}

/// The component that `v` spells, if any.
pub fn parse_component(v: &Vec<char>) -> (r: Option<Component>)
    ensures
        match r {
            Some(c) => component_of(v@) == Some(c@),
            None => component_of(v@) is None,
        },
{
    if v.len() > 0 && v[v.len() - 1] == '%' {
        let p = subrange(v, 0, v.len() - 1);
        assert(p@ =~= v@.drop_last());
        if float_literal(&p) {
            Some(Component { percent: true, number: Numeral { text: crate::text::from_chars(&p) } })
        } else {
            None
        }
    } else if float_literal(v) {
        Some(Component { percent: false, number: Numeral { text: crate::text::from_chars(v) } })
    } else {
        None
    }
}

/// A colour channel of `rgb(..)`: a number, or a percentage of full intensity.
pub fn parse_channel(s: &str) -> (r: Option<Component>)
    ensures
        match r {
            Some(c) => component_of(s@) == Some(c@),
            None => component_of(s@) is None,
        },
{
    parse_component(&to_chars(s))
}

/// The hue that `v` spells, if any.
fn parse_number(v: &Vec<char>) -> (r: Option<Numeral>)
    ensures
        match r {
            Some(n) => hue_of(v@) == Some(n@),
            None => hue_of(v@) is None,
        },
{
    let t = trim_end_all_chars(v, &to_chars("deg"));
    if float_literal(&t) {
        Some(Numeral { text: crate::text::from_chars(&t) })
    } else {
        None
    }
}

/// The text between the first `(` and the last `)`.
pub open spec fn paren_inner(s: Seq<char>) -> Option<Seq<char>> {
    match find_char(s, '(') {
        None => None,
        Some(i) => match rfind_char(s, ')') {
            None => None,
            Some(j) => if i + 1 <= j {
                Some(s.subrange(i + 1, j))
            } else {
                None
            },
        },
    }
}

/// Where the text between the first `(` and the last `)` of `v` lies.
fn paren_range(v: &Vec<char>) -> (r: Option<(usize, usize)>)
    ensures
        match r {
            Some((lo, hi)) => lo <= hi <= v.len() && paren_inner(v@) == Some(
                v@.subrange(lo as int, hi as int),
            ),
            None => paren_inner(v@) is None,
        },
{
    assert(v@.skip(0) =~= v@);
    match find_char_from(v, 0, '(') {
        None => None,
        Some(i) => match rfind_char_in(v, ')') {
            None => None,
            Some(j) => if i + 1 <= j {
                Some((i + 1, j))
            } else {
                None
            },
        },
    }
}

/// The text of `s` between its first `(` and its last `)`.
pub fn extract_parenthesized(s: &str) -> (r: Option<&str>)
    ensures
        match r {
            Some(t) => paren_inner(s@) == Some(t@),
            None => paren_inner(s@) is None,
        },
{
    let v = to_chars(s);
    match paren_range(&v) {
        Some((lo, hi)) => Some(s.substring_char(lo, hi)),
        None => None,
    }
}

/// A separator between colour components: `,`, `/` or white space.
pub open spec fn is_sep(c: char) -> bool {
    c == ',' || c == '/' || is_ws(c)
}

/// `i` is where the first separator of `s` stands.
pub open spec fn first_sep_at(s: Seq<char>, i: int) -> bool {
    &&& 0 <= i < s.len()
    &&& is_sep(s[i])
    &&& forall|j: int| 0 <= j < i ==> !is_sep(#[trigger] s[j])
}

pub open spec fn find_sep(s: Seq<char>) -> Option<int> {
    if exists|i: int| first_sep_at(s, i) {
        Some(choose|i: int| first_sep_at(s, i))
    } else {
        None
    }
}

/// The non-empty pieces of `s` between separators, in order.
pub open spec fn components(s: Seq<char>) -> Seq<Seq<char>>
    decreases s.len(),
{
    match find_sep(s) {
        None => if s.len() > 0 {
            seq![s]
        } else {
            seq![]
        },
        Some(i) => (if i > 0 {
            seq![s.take(i)]
        } else {
            seq![]
        }) + components(s.skip(i + 1)),
    }
}

pub(crate) proof fn lemma_find_sep_some(s: Seq<char>, i: int)
    requires
        first_sep_at(s, i),
    ensures
        find_sep(s) == Some(i),
{
    let k = choose|k: int| first_sep_at(s, k);
    assert(first_sep_at(s, k));
    if k < i {
        assert(!is_sep(s[k]));
    } else if i < k {
        assert(!is_sep(s[i]));
    }
}

proof fn lemma_components_unfold(s: Seq<char>)
    ensures
        find_sep(s) is None ==> components(s) == if s.len() > 0 {
            seq![s]
        } else {
            Seq::<Seq<char>>::empty()
        },
        find_sep(s) matches Some(i) ==> {
            &&& 0 <= i < s.len()
            &&& components(s) == (if i > 0 {
                seq![s.take(i)]
            } else {
                Seq::<Seq<char>>::empty()
            }) + components(s.skip(i + 1))
        },
{
}

fn is_separator(c: char) -> (r: bool)
    ensures
        r == is_sep(c),
{
    c == ',' || c == '/' || is_whitespace(c)
}

/// Where the components of `v` lie.
fn component_ranges(v: &Vec<char>) -> (r: Vec<(usize, usize)>)
    ensures
        crate::css::ranges_spell(v@, r@, components(v@)),
{
    let mut r: Vec<(usize, usize)> = Vec::new();
    let mut pos: usize = 0;
    let ghost mut done: Seq<Seq<char>> = Seq::empty();
    assert(v@.skip(0) =~= v@);
    loop
        invariant_except_break
            pos <= v.len(),
            done + components(v@.skip(pos as int)) == components(v@),
        invariant
            crate::css::ranges_spell(v@, r@, done),
        ensures
            done == components(v@),
        decreases v.len() - pos,
    {
        let ghost rest = v@.skip(pos as int);
        proof {
            lemma_components_unfold(rest);
        }
        let mut k: usize = pos;
        while k < v.len() && !is_separator(v[k])
            invariant
                pos <= k <= v.len(),
                rest == v@.skip(pos as int),
                forall|j: int| 0 <= j < k - pos ==> !is_sep(#[trigger] rest[j]),
            decreases v.len() - k,
        {
            k += 1;
        }
        if k == v.len() {
            if pos < k {
                r.push((pos, k));
                proof {
                    assert(v@.subrange(pos as int, k as int) =~= rest);
                    done = done.push(rest);
                }
            }
            proof {
                assert(find_sep(rest) is None);
                assert(done =~= components(v@));
            }
            break ;
        }
        proof {
            assert(first_sep_at(rest, k - pos));
            lemma_find_sep_some(rest, k - pos);
            assert(rest.skip(k - pos + 1) =~= v@.skip(k + 1));
        }
        if pos < k {
            r.push((pos, k));
            proof {
                assert(v@.subrange(pos as int, k as int) =~= rest.take(k - pos));
                assert(done.push(rest.take(k - pos)) + components(v@.skip(k + 1)) =~= done + (seq![
                    rest.take(k - pos),
                ] + components(v@.skip(k + 1))));
                done = done.push(rest.take(k - pos));
            }
        } else {
            assert(done + components(v@.skip(k + 1)) =~= done + (Seq::<Seq<char>>::empty()
                + components(v@.skip(k + 1))));
        }
        pos = k + 1;
    }
    r
}

/// The non-empty pieces of `s` between `,`, `/` and white space.
pub fn split_components(s: &str) -> (r: Vec<&str>)
    ensures
        r@.len() == components(s@).len(),
        forall|i: int| 0 <= i < r@.len() ==> (#[trigger] r@[i])@ == components(s@)[i],
{
    let v = to_chars(s);
    let ranges = component_ranges(&v);
    let mut r: Vec<&str> = Vec::new();
    let mut i: usize = 0;
    while i < ranges.len()
        invariant
            v@ == s@,
            crate::css::ranges_spell(v@, ranges@, components(s@)),
            i <= ranges.len(),
            r@.len() == i,
            forall|k: int| 0 <= k < i ==> (#[trigger] r@[k])@ == components(s@)[k],
        decreases ranges.len() - i,
    {
        let (lo, hi) = ranges[i];
        r.push(s.substring_char(lo, hi));
        i += 1;
    }
    r
}

/// What a colour declaration says: a colour given channel by channel, or
/// the components of an `rgb(..)` or `hsl(..)` form, as written.
pub enum ColorModel {
    Solid(Color),
    Rgb {
        red: ComponentModel,
        green: ComponentModel,
        blue: ComponentModel,
        alpha: Option<ComponentModel>,
    },
    Hsl {
        hue: Seq<char>,
        saturation: ComponentModel,
        lightness: ComponentModel,
        alpha: Option<ComponentModel>,
    },
}

/// A parsed colour.  `rgb(..)` and `hsl(..)` keep their components as
/// written: turning them into channels is floating-point work.
#[derive(Debug, PartialEq, Eq)]
pub enum ColorValue {
    Solid(Color),
    Rgb { red: Component, green: Component, blue: Component, alpha: Option<Component> },
    Hsl { hue: Numeral, saturation: Component, lightness: Component, alpha: Option<Component> },
}

pub open spec fn opt_component(a: Option<Component>) -> Option<ComponentModel> {
    match a {
        Some(c) => Some(c@),
        None => None,
    }
}

impl View for ColorValue {
    type V = ColorModel;

    open spec fn view(&self) -> ColorModel {
        match self {
            ColorValue::Solid(c) => ColorModel::Solid(*c),
            ColorValue::Rgb { red, green, blue, alpha } => ColorModel::Rgb {
                red: red@,
                green: green@,
                blue: blue@,
                alpha: opt_component(*alpha),
            },
            ColorValue::Hsl { hue, saturation, lightness, alpha } => ColorModel::Hsl {
                hue: hue@,
                saturation: saturation@,
                lightness: lightness@,
                alpha: opt_component(*alpha),
            },
        }
    }
}

fn duplicate_alpha(a: &Option<Component>) -> (r: Option<Component>)
    ensures
        opt_component(r) == opt_component(*a),
{
    match a {
        Some(c) => Some(c.duplicate()),
        None => None,
    }
}

impl ColorValue {
    /// A colour value equal to this one.
    pub fn duplicate(&self) -> (r: ColorValue)
        ensures
            r@ == self@,
    {
        match self {
            ColorValue::Solid(c) => ColorValue::Solid(*c),
            ColorValue::Rgb { red, green, blue, alpha } => ColorValue::Rgb {
                red: red.duplicate(),
                green: green.duplicate(),
                blue: blue.duplicate(),
                alpha: duplicate_alpha(alpha),
            },
            ColorValue::Hsl { hue, saturation, lightness, alpha } => ColorValue::Hsl {
                hue: hue.duplicate(),
                saturation: saturation.duplicate(),
                lightness: lightness.duplicate(),
                alpha: duplicate_alpha(alpha),
            },
        }
    }
}

/// `rgb(r, g, b)` / `rgba(r, g, b, a)`: three channels and perhaps an alpha
/// that, where it is not a number, counts as opaque.
pub open spec fn rgb_value(s: Seq<char>) -> Option<ColorModel> {
    match paren_inner(s) {
        None => None,
        Some(inner) => {
            let parts = components(inner);
            if parts.len() < 3 {
                None
            } else {
                let r = component_of(parts[0]);
                let g = component_of(parts[1]);
                let b = component_of(parts[2]);
                if r is Some && g is Some && b is Some {
                    Some(
                        ColorModel::Rgb {
                            red: r.unwrap(),
                            green: g.unwrap(),
                            blue: b.unwrap(),
                            alpha: if parts.len() > 3 {
                                component_of(parts[3])
                            } else {
                                None
                            },
                        },
                    )
                } else {
                    None
                }
            }
        },
    }
}

/// `hsl(h, s, l)` / `hsla(h, s, l, a)`.
pub open spec fn hsl_value(s: Seq<char>) -> Option<ColorModel> {
    match paren_inner(s) {
        None => None,
        Some(inner) => {
            let parts = components(inner);
            if parts.len() < 3 {
                None
            } else {
                let h = hue_of(parts[0]);
                let sat = component_of(parts[1]);
                let lit = component_of(parts[2]);
                if h is Some && sat is Some && lit is Some {
                    Some(
                        ColorModel::Hsl {
                            hue: h.unwrap(),
                            saturation: sat.unwrap(),
                            lightness: lit.unwrap(),
                            alpha: if parts.len() > 3 {
                                component_of(parts[3])
                            } else {
                                None
                            },
                        },
                    )
                } else {
                    None
                }
            }
        },
    }
}

/// `s` begins with the three characters `a b c`.
pub open spec fn starts_with3(s: Seq<char>, a: char, b: char, c: char) -> bool {
    s.len() >= 3 && s[0] == a && s[1] == b && s[2] == c
}

/// The colour that a declaration value spells, if any.
pub open spec fn color_of(input: Seq<char>) -> Option<ColorModel> {
    let s = trim(input);
    if s.len() > 0 && s[0] == '#' {
        match hex_color(s.drop_first()) {
            Some(c) => Some(ColorModel::Solid(c)),
            None => None,
        }
    } else if starts_with3(s, 'r', 'g', 'b') {
        rgb_value(s)
    } else if starts_with3(s, 'h', 's', 'l') {
        hsl_value(s)
    } else {
        match named_color(s) {
            Some(c) => Some(ColorModel::Solid(c)),
            None => None,
        }
    }
}

/// Parsing `input` as a colour slices no character in two.
pub open spec fn color_safe(input: Seq<char>) -> bool {
    let s = trim(input);
    (s.len() > 0 && s[0] == '#') ==> hex_safe(s.drop_first())
}

/// The components of the `rgb(..)` or `hsl(..)` form `s`.
fn parse_functional(s: &Vec<char>, hsl: bool) -> (r: Option<ColorValue>)
    ensures
        match r {
            Some(c) => (if hsl {
                hsl_value(s@)
            } else {
                rgb_value(s@)
            }) == Some(c@),
            None => (if hsl {
                hsl_value(s@)
            } else {
                rgb_value(s@)
            }) is None,
        },
{
    let (lo, hi) = match paren_range(s) {
        Some(range) => range,
        None => return None,
    };
    let inner = subrange(s, lo, hi);
    let ranges = component_ranges(&inner);
    let ghost parts = components(inner@);
    if ranges.len() < 3 {
        return None;
    }
    let p0 = subrange(&inner, ranges[0].0, ranges[0].1);
    let p1 = subrange(&inner, ranges[1].0, ranges[1].1);
    let p2 = subrange(&inner, ranges[2].0, ranges[2].1);
    let alpha = if ranges.len() > 3 {
        let p3 = subrange(&inner, ranges[3].0, ranges[3].1);
        parse_component(&p3)
    } else {
        None
    };
    assert(opt_component(alpha) == if parts.len() > 3 {
        component_of(parts[3])
    } else {
        None
    });
    let second = parse_component(&p1);
    let third = parse_component(&p2);
    if hsl {
        let first = parse_number(&p0);
        match (first, second, third) {
            (Some(hue), Some(saturation), Some(lightness)) => Some(
                ColorValue::Hsl { hue, saturation, lightness, alpha },
            ),
            _ => None,
        }
    } else {
        let first = parse_component(&p0);
        match (first, second, third) {
            (Some(red), Some(green), Some(blue)) => Some(
                ColorValue::Rgb { red, green, blue, alpha },
            ),
            _ => None,
        }
    }
}

/// The colour that the characters `v` spell, if any.
pub fn parse_color_chars(v: &Vec<char>) -> (r: Option<ColorValue>)
    requires
        color_safe(v@),
    ensures
        match r {
            Some(c) => color_of(v@) == Some(c@),
            None => color_of(v@) is None,
        },
{
    let s = trimmed(v);
    if s.len() > 0 && s[0] == '#' {
        let h = subrange(&s, 1, s.len());
        assert(h@ =~= s@.drop_first());
        match parse_hex(&h) {
            Some(c) => Some(ColorValue::Solid(c)),
            None => None,
        }
    } else if s.len() >= 3 && s[0] == 'r' && s[1] == 'g' && s[2] == 'b' {
        parse_functional(&s, false)
    } else if s.len() >= 3 && s[0] == 'h' && s[1] == 's' && s[2] == 'l' {
        parse_functional(&s, true)
    } else {
        match parse_named(&s) {
            Some(c) => Some(ColorValue::Solid(c)),
            None => None,
        }
    }
}

/// The colour that a theme value spells: `#` and three, four, six or eight
/// hexadecimal digits, `rgb(..)`/`rgba(..)`, `hsl(..)`/`hsla(..)`, or a
/// colour name.
pub fn parse_color(input: &str) -> (r: Option<ColorValue>)
    requires
        color_safe(input@),
    ensures
        match r {
            Some(c) => color_of(input@) == Some(c@),
            None => color_of(input@) is None,
        },
{
    parse_color_chars(&to_chars(input))
}

fn width_of(c: char) -> (w: u64)
    ensures
        w == utf8_width(c),
{
    if (c as u32) < 0x80 {
        1
    } else if (c as u32) < 0x800 {
        2
    } else if (c as u32) < 0x10000 {
        3
    } else {
        4
    }
}

/// The byte length of `h`, or 9 where it is longer.
fn byte_len_up_to_nine(h: &Vec<char>) -> (n: u64)
    ensures
        n == if byte_len(h@) < 9 {
            byte_len(h@)
        } else {
            9
        },
{
    let mut bytes: u64 = 0;
    let mut i: usize = 0;
    assert(h@.take(0) =~= Seq::<char>::empty());
    while i < h.len()
        invariant
            i <= h.len(),
            bytes as int == if byte_len(h@.take(i as int)) < 9 {
                byte_len(h@.take(i as int)) as int
            } else {
                9
            },
        decreases h.len() - i,
    {
        let w = width_of(h[i]);
        proof {
            let t = h@.take(i + 1);
            assert(t.drop_last() =~= h@.take(i as int));
            assert(t.last() == h@[i as int]);
        }
        bytes = if bytes + w < 9 {
            bytes + w
        } else {
            9
        };
        i += 1;
    }
    assert(h@.take(h.len() as int) =~= h@);
    bytes
}

/// Whether the one-byte channels of `h` can be sliced.
fn short_channels_are_safe(h: &Vec<char>, count: usize) -> (r: bool)
    requires
        count <= 4,
    ensures
        r == short_channels_safe(h@, 0, count as int),
{
    let mut i: usize = 0;
    while i < count && i < h.len()
        invariant
            i <= count <= 4,
            short_channels_safe(h@, 0, count as int) == short_channels_safe(h@, i as int, count as int),
        decreases count - i,
    {
        if width_of(h[i]) != 1 {
            return false;
        }
        if hex_value(h[i]).is_none() {
            return true;
        }
        i += 1;
    }
    true
}

/// Whether the two-byte channels of `h` can be sliced.
fn long_channels_are_safe(h: &Vec<char>, count: usize) -> (r: bool)
    requires
        count <= 4,
    ensures
        r == long_channels_safe(h@, 0, count as int),
{
    let mut j: usize = 0;
    while j < count && 2 * j < h.len()
        invariant
            j <= count <= 4,
            long_channels_safe(h@, 0, count as int) == long_channels_safe(h@, j as int, count as int),
        decreases count - j,
    {
        let w0 = width_of(h[2 * j]);
        if w0 == 2 {
            return true;
        }
        if w0 != 1 {
            return false;
        }
        if 2 * j + 1 >= h.len() {
            return true;
        }
        if width_of(h[2 * j + 1]) != 1 {
            return false;
        }
        if hex_pair(h, 2 * j).is_none() {
            assert(h@.subrange(2 * j, 2 * j + 2) =~= seq![h@[2 * j], h@[2 * j + 1]]);
            return true;
        }
        assert(h@.subrange(2 * j, 2 * j + 2) =~= seq![h@[2 * j], h@[2 * j + 1]]);
        j += 1;
    }
    true
}

/// Whether cutting the bytes of `h` into channels cuts no character in two.
fn hex_is_safe(h: &Vec<char>) -> (r: bool)
    ensures
        r == hex_safe(h@),
{
    let n = byte_len_up_to_nine(h);
    if n == 3 {
        short_channels_are_safe(h, 3)
    } else if n == 4 {
        short_channels_are_safe(h, 4)
    } else if n == 6 {
        long_channels_are_safe(h, 3)
    } else if n == 8 {
        long_channels_are_safe(h, 4)
    } else {
        true
    }
}

/// Whether parsing `v` as a colour slices no character in two.
pub fn color_chars_are_safe(v: &Vec<char>) -> (r: bool)
    ensures
        r == color_safe(v@),
{
    let s = trimmed(v);
    if s.len() > 0 && s[0] == '#' {
        let h = subrange(&s, 1, s.len());
        assert(h@ =~= s@.drop_first());
        hex_is_safe(&h)
    } else {
        true
    }
}

/// Whether parsing `input` as a colour slices no character in two (the
/// condition `parse_color` asks for).
pub fn color_is_safe(input: &str) -> (r: bool)
    ensures
        r == color_safe(input@),
{
    color_chars_are_safe(&to_chars(input))
}


} // verus!
