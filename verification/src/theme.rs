//! A theme stylesheet turned into colours and font settings.
use vstd::prelude::*;
use crate::color::{
    ColorModel, ColorValue, Numeral, color_chars_are_safe, color_of, color_safe, parse_color_chars,
};
use crate::css::{
    block_ranges, css_blocks, normalize_key_chars, normalized_key, ranges_spell, split_char,
    split_ranges, strip_all, strip_block_chars, strip_line_chars,
};
use crate::font::{
    FontWeight, font_size_of, font_weight_of, parse_font_size_chars, parse_font_weight_chars,
};
use crate::text::{
    find_char, find_char_from, from_chars, is_text, same_chars, subrange, to_chars, trim, trimmed,
};

verus! {

/// Colours by property name.  Each name occurs once; a later colour for a
/// name replaces the earlier one.
pub struct ColorMap {
    keys: Vec<Vec<char>>,
    values: Vec<ColorValue>,
    model: Ghost<Map<Seq<char>, ColorModel>>,
}

impl View for ColorMap {
    type V = Map<Seq<char>, ColorModel>;

    closed spec fn view(&self) -> Map<Seq<char>, ColorModel> {
        self.model@
    }
}

impl ColorMap {
    /// The entries agree with the map they stand for.
    pub closed spec fn wf(&self) -> bool {
        &&& self.keys.len() == self.values.len()
        &&& forall|i: int, j: int|
            0 <= i < j < self.keys.len() ==> (#[trigger] self.keys@[i])@ != (
            #[trigger] self.keys@[j])@
        &&& forall|i: int|
            0 <= i < self.keys.len() ==> {
                &&& self.model@.contains_key((#[trigger] self.keys@[i])@)
                &&& self.model@[self.keys@[i]@] == self.values@[i]@
            }
        &&& forall|k: Seq<char>|
            #[trigger] self.model@.contains_key(k) ==> exists|i: int|
                0 <= i < self.keys.len() && (#[trigger] self.keys@[i])@ == k
    }

    /// The empty map.
    pub fn new() -> (m: ColorMap)
        ensures
            m.wf(),
            m@ == Map::<Seq<char>, ColorModel>::empty(),
    {
        ColorMap { keys: Vec::new(), values: Vec::new(), model: Ghost(Map::empty()) }
    }

    /// Where `key` stands among the entries.
    fn index_of(&self, key: &Vec<char>) -> (r: Option<usize>)
        requires
            self.wf(),
        ensures
            match r {
                Some(i) => i < self.keys.len() && self.keys@[i as int]@ == key@,
                None => !self@.contains_key(key@),
            },
    {
        let mut i: usize = 0;
        while i < self.keys.len()
            invariant
                self.wf(),
                i <= self.keys.len(),
                forall|j: int| 0 <= j < i ==> (#[trigger] self.keys@[j])@ != key@,
            decreases self.keys.len() - i,
        {
            if same_chars(&self.keys[i], key) {
                return Some(i);
            }
            i += 1;
        }
        None
    }

    /// Sets the colour of `key` to `value`.
    pub fn insert(&mut self, key: Vec<char>, value: ColorValue)
        requires
            old(self).wf(),
        ensures
            final(self).wf(),
            final(self)@ == old(self)@.insert(key@, value@),
    {
        let ghost m = self.model@.insert(key@, value@);
        match self.index_of(&key) {
            Some(i) => {
                self.values.set(i, value);
                self.model = Ghost(m);
                assert forall|k: Seq<char>| #[trigger] self.model@.contains_key(k) implies exists|
                    j: int,
                | 0 <= j < self.keys.len() && (#[trigger] self.keys@[j])@ == k by {
                    if k == key@ {
                        assert(self.keys@[i as int]@ == k);
                    } else {
                        assert(old(self).model@.contains_key(k));
                    }
                }
            },
            None => {
                self.keys.push(key);
                self.values.push(value);
                self.model = Ghost(m);
                let ghost n = self.keys.len() - 1;
                assert(self.keys@[n]@ == key@);
                assert forall|k: Seq<char>| #[trigger] self.model@.contains_key(k) implies exists|
                    j: int,
                | 0 <= j < self.keys.len() && (#[trigger] self.keys@[j])@ == k by {
                    if k == key@ {
                        assert(self.keys@[n]@ == k);
                    } else {
                        assert(old(self).model@.contains_key(k));
                        let j = choose|j: int|
                            0 <= j < old(self).keys.len() && (#[trigger] old(self).keys@[j])@ == k;
                        assert(self.keys@[j] == old(self).keys@[j]);
                    }
                }
            },
        }
    }

    /// The colour of `key`, if it has one.
    pub fn get(&self, key: &str) -> (r: Option<&ColorValue>)
        requires
            self.wf(),
        ensures
            match r {
                Some(v) => self@.contains_key(key@) && self@[key@] == v@,
                None => !self@.contains_key(key@),
            },
    {
        let k = to_chars(key);
        match self.index_of(&k) {
            Some(i) => Some(&self.values[i]),
            None => None,
        }
    }

    /// How many names have a colour.
    pub fn len(&self) -> (n: usize)
        requires
            self.wf(),
        ensures
            n == self@.len(),
    {
        proof {
            self.lemma_len();
        }
        self.keys.len()
    }

    proof fn lemma_len(&self)
        requires
            self.wf(),
        ensures
            self.keys.len() == self@.len(),
    {
        let ks = self.keys@.map_values(|k: Vec<char>| k@);
        assert(ks.no_duplicates()) by {
            assert forall|i: int, j: int| 0 <= i < ks.len() && 0 <= j < ks.len() && i != j implies ks[i]
                != ks[j] by {
                if i < j {
                    assert(self.keys@[i]@ != self.keys@[j]@);
                } else {
                    assert(self.keys@[j]@ != self.keys@[i]@);
                }
            }
        }
        assert(ks.to_set() =~= self@.dom()) by {
            assert forall|k: Seq<char>| self@.dom().contains(k) implies ks.to_set().contains(k) by {
                let j = choose|j: int| 0 <= j < self.keys.len() && (#[trigger] self.keys@[j])@ == k;
                assert(ks[j] == k);
            }
            assert forall|k: Seq<char>| ks.to_set().contains(k) implies self@.dom().contains(k) by {
                let j = choose|j: int| 0 <= j < ks.len() && ks[j] == k;
                assert(self.keys@[j]@ == k);
            }
        }
        ks.unique_seq_to_set();
    }
}

/// The settings that a theme stylesheet holds.
pub struct ThemeModel {
    pub colors: Map<Seq<char>, ColorModel>,
    pub font_family: Option<Seq<char>>,
    pub font_family_mono: Option<Seq<char>>,
    pub font_size_small: Option<Seq<char>>,
    pub font_size_normal: Option<Seq<char>>,
    pub font_size_large: Option<Seq<char>>,
    pub font_weight: Option<FontWeight>,
    pub font_weight_medium: Option<FontWeight>,
}

/// What a theme stylesheet sets: colours by property name, the font
/// families as written, the font sizes as numbers written in the theme, and
/// the font weights.
pub struct ParsedTheme {
    pub colors: ColorMap,
    pub font_family: Option<String>,
    pub font_family_mono: Option<String>,
    pub font_size_small: Option<Numeral>,
    pub font_size_normal: Option<Numeral>,
    pub font_size_large: Option<Numeral>,
    pub font_weight: Option<FontWeight>,
    pub font_weight_medium: Option<FontWeight>,
}

pub open spec fn opt_text(o: Option<String>) -> Option<Seq<char>> {
    match o {
        Some(s) => Some(s@),
        None => None,
    }
}

pub open spec fn opt_numeral(o: Option<Numeral>) -> Option<Seq<char>> {
    match o {
        Some(n) => Some(n@),
        None => None,
    }
}

impl View for ParsedTheme {
    type V = ThemeModel;

    open spec fn view(&self) -> ThemeModel {
        ThemeModel {
            colors: self.colors@,
            font_family: opt_text(self.font_family),
            font_family_mono: opt_text(self.font_family_mono),
            font_size_small: opt_numeral(self.font_size_small),
            font_size_normal: opt_numeral(self.font_size_normal),
            font_size_large: opt_numeral(self.font_size_large),
            font_weight: self.font_weight,
            font_weight_medium: self.font_weight_medium,
        }
    }
}

/// A theme that sets nothing.
pub open spec fn empty_theme() -> ThemeModel {
    ThemeModel {
        colors: Map::empty(),
        font_family: None,
        font_family_mono: None,
        font_size_small: None,
        font_size_normal: None,
        font_size_large: None,
        font_weight: None,
        font_weight_medium: None,
    }
}

impl ParsedTheme {
    pub open spec fn wf(&self) -> bool {
        self.colors.wf()
    }

    /// A theme that sets nothing.
    pub fn new() -> (t: ParsedTheme)
        ensures
            t.wf(),
            t@ == empty_theme(),
    {
        ParsedTheme {
            colors: ColorMap::new(),
            font_family: None,
            font_family_mono: None,
            font_size_small: None,
            font_size_normal: None,
            font_size_large: None,
            font_weight: None,
            font_weight_medium: None,
        }
    }
}

impl Default for ParsedTheme {
    fn default() -> (t: ParsedTheme)
        ensures
            t.wf(),
            t@ == empty_theme(),
    {
        ParsedTheme::new()
    }
}

/// The font settings that a declaration can make.
#[derive(Clone, Copy, Debug, PartialEq, Eq, Structural)]
pub enum FontField {
    Family,
    FamilyMono,
    SizeSmall,
    SizeNormal,
    SizeLarge,
    Weight,
    WeightMedium,
}

/// The font setting that a (normalized) property name makes, if any.
pub open spec fn font_field_of(key: Seq<char>) -> Option<FontField> {
    if key == "font_family"@ || key == "ui_font_family"@ || key == "font"@ {
        Some(FontField::Family)
    } else if key == "font_family_mono"@ || key == "ui_font_mono_family"@ || key == "font_mono"@ {
        Some(FontField::FamilyMono)
    } else if key == "font_size_small"@ || key == "text_size_small"@ {
        Some(FontField::SizeSmall)
    } else if key == "font_size"@ || key == "font_size_normal"@ || key == "text_size_normal"@ || key
        == "text_size"@ {
        Some(FontField::SizeNormal)
    } else if key == "font_size_large"@ || key == "text_size_large"@ {
        Some(FontField::SizeLarge)
    } else if key == "font_weight"@ || key == "ui_font_weight"@ {
        Some(FontField::Weight)
    } else if key == "font_weight_medium"@ || key == "ui_font_weight_medium"@ {
        Some(FontField::WeightMedium)
    } else {
        None
    }
}

/// The theme `t` after the font setting `f` is given the value `val`.  A
/// size that is no number unsets the size.
pub open spec fn apply_font(t: ThemeModel, f: FontField, val: Seq<char>) -> ThemeModel {
    match f {
        FontField::Family => ThemeModel { font_family: Some(val), ..t },
        FontField::FamilyMono => ThemeModel { font_family_mono: Some(val), ..t },
        FontField::SizeSmall => ThemeModel { font_size_small: font_size_of(val), ..t },
        FontField::SizeNormal => ThemeModel { font_size_normal: font_size_of(val), ..t },
        FontField::SizeLarge => ThemeModel { font_size_large: font_size_of(val), ..t },
        FontField::Weight => ThemeModel { font_weight: Some(font_weight_of(val)), ..t },
        FontField::WeightMedium => ThemeModel {
            font_weight_medium: Some(font_weight_of(val)),
            ..t
        },
    }
}

/// The name and value of a declaration `name: value`, split at the first `:`.
pub open spec fn declaration_parts(line: Seq<char>) -> Option<(Seq<char>, Seq<char>)> {
    match find_char(line, ':') {
        None => None,
        Some(i) => Some((normalized_key(line.take(i)), trim(line.skip(i + 1)))),
    }
}

/// The theme `t` after the declaration `line`: a font setting is made, a
/// colour is recorded under its property name; anything else (no `:`, an
/// empty name or value, a value that is no colour) changes nothing.
pub open spec fn apply_declaration(t: ThemeModel, line: Seq<char>) -> ThemeModel {
    match declaration_parts(line) {
        None => t,
        Some((key, val)) => if key.len() == 0 || val.len() == 0 {
            t
        } else {
            match font_field_of(key) {
                Some(f) => apply_font(t, f, val),
                None => match color_of(val) {
                    Some(c) => ThemeModel { colors: t.colors.insert(key, c), ..t },
                    None => t,
                },
            }
        },
    }
}

/// Parsing the declaration `line` slices no character in two.
pub open spec fn declaration_safe(line: Seq<char>) -> bool {
    match declaration_parts(line) {
        None => true,
        Some((key, val)) => key.len() == 0 || val.len() == 0 || font_field_of(key) is Some
            || color_safe(val),
    }
}

/// The theme `t` after the declarations `ds`, in order.
pub open spec fn apply_declarations(t: ThemeModel, ds: Seq<Seq<char>>) -> ThemeModel
    decreases ds.len(),
{
    if ds.len() == 0 {
        t
    } else {
        apply_declaration(apply_declarations(t, ds.drop_last()), ds.last())
    }
}

/// The theme `t` after the declarations of the blocks `bs`, block by block,
/// a block's declarations being its pieces between `;`.
pub open spec fn apply_blocks(t: ThemeModel, bs: Seq<Seq<char>>) -> ThemeModel
    decreases bs.len(),
{
    if bs.len() == 0 {
        t
    } else {
        apply_declarations(apply_blocks(t, bs.drop_last()), split_char(bs.last(), ';'))
    }
}

/// The blocks of a stylesheet once its comments are removed.
pub open spec fn theme_blocks(css: Seq<char>) -> Seq<Seq<char>> {
    css_blocks(strip_all(css))
}

/// The theme that a stylesheet sets.
pub open spec fn theme_of(css: Seq<char>) -> ThemeModel {
    apply_blocks(empty_theme(), theme_blocks(css))
}

/// Every declaration of the stylesheet can be parsed without slicing a
/// character in two.
pub open spec fn theme_css_safe(css: Seq<char>) -> bool {
    forall|i: int, j: int|
        0 <= i < theme_blocks(css).len() && 0 <= j < split_char(theme_blocks(css)[i], ';').len()
            ==> declaration_safe(#[trigger] split_char(theme_blocks(css)[i], ';')[j])
}

/// The font setting that the property name `key` makes, if any.
fn font_field(key: &Vec<char>) -> (r: Option<FontField>)
    ensures
        r == font_field_of(key@),
{
    if is_text(key, "font_family") || is_text(key, "ui_font_family") || is_text(key, "font") {
        Some(FontField::Family)
    } else if is_text(key, "font_family_mono") || is_text(key, "ui_font_mono_family") || is_text(
        key,
        "font_mono",
    ) {
        Some(FontField::FamilyMono)
    } else if is_text(key, "font_size_small") || is_text(key, "text_size_small") {
        Some(FontField::SizeSmall)
    } else if is_text(key, "font_size") || is_text(key, "font_size_normal") || is_text(
        key,
        "text_size_normal",
    ) || is_text(key, "text_size") {
        Some(FontField::SizeNormal)
    } else if is_text(key, "font_size_large") || is_text(key, "text_size_large") {
        Some(FontField::SizeLarge)
    } else if is_text(key, "font_weight") || is_text(key, "ui_font_weight") {
        Some(FontField::Weight)
    } else if is_text(key, "font_weight_medium") || is_text(key, "ui_font_weight_medium") {
        Some(FontField::WeightMedium)
    } else {
        None
    }
}

/// Makes the font setting that `key` names, if it names one; says whether
/// it did.
fn handle_font_declaration(key: &Vec<char>, val: &Vec<char>, theme: &mut ParsedTheme) -> (r: bool)
    requires
        old(theme).wf(),
    ensures
        final(theme).wf(),
        r == font_field_of(key@) is Some,
        final(theme)@ == match font_field_of(key@) {
            Some(f) => apply_font(old(theme)@, f, val@),
            None => old(theme)@,
        },
{
    match font_field(key) {
        Some(FontField::Family) => {
            theme.font_family = Some(from_chars(val));
        },
        Some(FontField::FamilyMono) => {
            theme.font_family_mono = Some(from_chars(val));
        },
        Some(FontField::SizeSmall) => {
            theme.font_size_small = parse_font_size_chars(val);
        },
        Some(FontField::SizeNormal) => {
            theme.font_size_normal = parse_font_size_chars(val);
        },
        Some(FontField::SizeLarge) => {
            theme.font_size_large = parse_font_size_chars(val);
        },
        Some(FontField::Weight) => {
            theme.font_weight = Some(parse_font_weight_chars(val));
        },
        Some(FontField::WeightMedium) => {
            theme.font_weight_medium = Some(parse_font_weight_chars(val));
        },
        None => {
            return false;
        },
    }
    true
}

/// Applies the declaration `line` to `theme`.
fn parse_declaration_into(line: &Vec<char>, theme: &mut ParsedTheme)
    requires
        old(theme).wf(),
        declaration_safe(line@),
    ensures
        final(theme).wf(),
        final(theme)@ == apply_declaration(old(theme)@, line@),
{
    assert(line@.skip(0) =~= line@);
    let colon = match find_char_from(line, 0, ':') {
        Some(i) => i,
        None => return ,
    };
    let raw_key = subrange(line, 0, colon);
    let raw_val = subrange(line, colon + 1, line.len());
    assert(raw_key@ =~= line@.take(colon as int));
    assert(raw_val@ =~= line@.skip(colon + 1));
    let key = normalize_key_chars(&raw_key);
    let val = trimmed(&raw_val);
    if key.len() == 0 || val.len() == 0 {
        return ;
    }
    if !handle_font_declaration(&key, &val, theme) {
        match parse_color_chars(&val) {
            Some(color) => {
                theme.colors.insert(key, color);
            },
            None => {},
        }
    }
}

/// The settings that the theme stylesheet `css` makes: for every block (or
/// the whole text where there is no `{`), once comments are removed, every
/// declaration between `;` in order, later ones overriding earlier ones.
pub fn parse_theme_css(css: &str) -> (r: ParsedTheme)
    requires
        theme_css_safe(css@),
    ensures
        r.wf(),
        r@ == theme_of(css@),
{
    let clean = strip_line_chars(&strip_block_chars(&to_chars(css)));
    let blocks = block_ranges(&clean);
    let ghost bs = theme_blocks(css@);
    let mut theme = ParsedTheme::new();
    let mut i: usize = 0;
    assert(bs.take(0) =~= Seq::<Seq<char>>::empty());
    while i < blocks.len()
        invariant
            clean@ == strip_all(css@),
            bs == theme_blocks(css@),
            ranges_spell(clean@, blocks@, bs),
            theme_css_safe(css@),
            theme.wf(),
            i <= blocks.len(),
            theme@ == apply_blocks(empty_theme(), bs.take(i as int)),
        decreases blocks.len() - i,
    {
        let block = subrange(&clean, blocks[i].0, blocks[i].1);
        let chunks = split_ranges(&block, ';');
        let ghost cs = split_char(bs[i as int], ';');
        let ghost before = theme@;
        let mut j: usize = 0;
        assert(cs.take(0) =~= Seq::<Seq<char>>::empty());
        while j < chunks.len()
            invariant
                block@ == bs[i as int],
                cs == split_char(bs[i as int], ';'),
                ranges_spell(block@, chunks@, cs),
                forall|k: int| 0 <= k < cs.len() ==> declaration_safe(#[trigger] cs[k]),
                theme.wf(),
                j <= chunks.len(),
                theme@ == apply_declarations(before, cs.take(j as int)),
            decreases chunks.len() - j,
        {
            let chunk = subrange(&block, chunks[j].0, chunks[j].1);
            parse_declaration_into(&chunk, &mut theme);
            assert(cs.take(j + 1).drop_last() =~= cs.take(j as int));
            j += 1;
        }
        assert(cs.take(cs.len() as int) =~= cs);
        assert(bs.take(i + 1).drop_last() =~= bs.take(i as int));
        i += 1;
    }
    assert(bs.take(bs.len() as int) =~= bs);
    theme
}

/// Whether parsing the declaration `line` slices no character in two.
fn declaration_is_safe(line: &Vec<char>) -> (r: bool)
    ensures
        r == declaration_safe(line@),
{
    assert(line@.skip(0) =~= line@);
    let colon = match find_char_from(line, 0, ':') {
        Some(i) => i,
        None => return true,
    };
    let raw_key = subrange(line, 0, colon);
    let raw_val = subrange(line, colon + 1, line.len());
    assert(raw_key@ =~= line@.take(colon as int));
    assert(raw_val@ =~= line@.skip(colon + 1));
    let key = normalize_key_chars(&raw_key);
    let val = trimmed(&raw_val);
    key.len() == 0 || val.len() == 0 || font_field(&key).is_some() || color_chars_are_safe(&val)
}

/// Whether every declaration of `css` can be parsed without slicing a
/// character in two (the condition `parse_theme_css` asks for).
pub fn theme_css_is_safe(css: &str) -> (r: bool)
    ensures
        r == theme_css_safe(css@),
{
    let clean = strip_line_chars(&strip_block_chars(&to_chars(css)));
    let blocks = block_ranges(&clean);
    let ghost bs = theme_blocks(css@);
    let mut i: usize = 0;
    while i < blocks.len()
        invariant
            bs == theme_blocks(css@),
            ranges_spell(clean@, blocks@, bs),
            i <= blocks.len(),
            forall|a: int, b: int|
                0 <= a < i && 0 <= b < split_char(bs[a], ';').len() ==> declaration_safe(
                    #[trigger] split_char(bs[a], ';')[b],
                ),
        decreases blocks.len() - i,
    {
        let block = subrange(&clean, blocks[i].0, blocks[i].1);
        let chunks = split_ranges(&block, ';');
        let ghost cs = split_char(bs[i as int], ';');
        let mut j: usize = 0;
        while j < chunks.len()
            invariant
                bs == theme_blocks(css@),
                i < bs.len(),
                block@ == bs[i as int],
                cs == split_char(bs[i as int], ';'),
                ranges_spell(block@, chunks@, cs),
                j <= chunks.len(),
                forall|k: int| 0 <= k < j ==> declaration_safe(#[trigger] cs[k]),
            decreases chunks.len() - j,
        {
            let chunk = subrange(&block, chunks[j].0, chunks[j].1);
            if !declaration_is_safe(&chunk) {
                assert(!declaration_safe(
                    split_char(theme_blocks(css@)[i as int], ';')[j as int],
                ));
                return false;
            }
            j += 1;
        }
        proof {
            assert forall|a: int, b: int|
                0 <= a < i + 1 && 0 <= b < split_char(bs[a], ';').len() implies declaration_safe(
                #[trigger] split_char(bs[a], ';')[b],
            ) by {
                if a == i {
                    assert(cs[b] == split_char(bs[a], ';')[b]);
                }
            }
        }
        i += 1;
    }
    true
}

} // verus!
