//! The stylesheet layer: comments, blocks, declarations and property names.
use vstd::prelude::*;
use crate::text::{
    append_chars, find_char, find_char_from, find_pair, find_pair_from, lemma_find_char_range,
    from_chars, lower, subrange, to_chars, to_lower, trim, trimmed,
};

verus! {

/// What is left of `s` once its `/* ... */` comments are removed; a comment
/// that is never closed runs to the end of the text.
pub open spec fn strip_block(s: Seq<char>) -> Seq<char>
    decreases s.len(),
{
    match find_pair(s, '/', '*') {
        None => s,
        Some(i) => {
            let after = s.skip(i + 2);
            match find_pair(after, '*', '/') {
                None => s.take(i),
                Some(j) => s.take(i) + strip_block(after.skip(j + 2)),
            }
        },
    }
}

/// `l` without the carriage return of a `\r\n` line ending.
pub open spec fn strip_cr(l: Seq<char>) -> Seq<char> {
    if l.len() > 0 && l.last() == '\r' {
        l.drop_last()
    } else {
        l
    }
}

/// `str::lines`: the text split at `\n` and `\r\n`; a final line ending
/// starts no further line.
pub open spec fn lines(s: Seq<char>) -> Seq<Seq<char>>
    decreases s.len(),
{
    if s.len() == 0 {
        seq![]
    } else {
        match find_char(s, '\n') {
            None => seq![s],
            Some(i) => seq![strip_cr(s.take(i))] + lines(s.skip(i + 1)),
        }
    }
}

/// The part of a line before its first `//`.
pub open spec fn cut_line_comment(l: Seq<char>) -> Seq<char> {
    match find_pair(l, '/', '/') {
        Some(i) => l.take(i),
        None => l,
    }
}

/// The lines joined with `\n` between them (`[..].join("\n")`).
pub open spec fn join_lines(ls: Seq<Seq<char>>) -> Seq<char>
    decreases ls.len(),
{
    if ls.len() == 0 {
        seq![]
    } else if ls.len() == 1 {
        ls[0]
    } else {
        join_lines(ls.drop_last()) + seq!['\n'] + ls.last()
    }
}

/// Every line cut at its first `//`, the lines joined again with `\n`.
pub open spec fn strip_line(s: Seq<char>) -> Seq<char> {
    join_lines(lines(s).map_values(|l: Seq<char>| cut_line_comment(l)))
}

/// Block comments removed first, then line comments.
pub open spec fn strip_all(s: Seq<char>) -> Seq<char> {
    strip_line(strip_block(s))
}

/// The bodies of the `{ ... }` blocks of `s`, in order; a block that is
/// never closed runs to the end of the text.
pub open spec fn blocks_from(s: Seq<char>) -> Seq<Seq<char>>
    decreases s.len(),
{
    match find_char(s, '{') {
        None => seq![],
        Some(i) => {
            let after = s.skip(i + 1);
            match find_char(after, '}') {
                None => seq![after],
                Some(j) => seq![after.take(j)] + blocks_from(after.skip(j + 1)),
            }
        },
    }
}

/// The blocks of a stylesheet; text without any `{` is one block.
pub open spec fn css_blocks(s: Seq<char>) -> Seq<Seq<char>> {
    if blocks_from(s).len() == 0 {
        seq![s]
    } else {
        blocks_from(s)
    }
}

/// `str::split` with a `char` separator.
pub open spec fn split_char(s: Seq<char>, c: char) -> Seq<Seq<char>>
    decreases s.len(),
{
    match find_char(s, c) {
        None => seq![s],
        Some(i) => seq![s.take(i)] + split_char(s.skip(i + 1), c),
    }
}

/// `-` becomes `_`.
pub open spec fn dash_to_underscore(c: char) -> char {
    if c == '-' {
        '_'
    } else {
        c
    }
}

/// A property name as the theme knows it: trimmed, ASCII lower-cased,
/// without a leading `--`, with `_` for every `-`.
pub open spec fn normalized_key(key: Seq<char>) -> Seq<char> {
    let t = lower(trim(key));
    let u = if t.len() >= 2 && t[0] == '-' && t[1] == '-' {
        t.skip(2)
    } else {
        t
    };
    u.map_values(|c: char| dash_to_underscore(c))
}

proof fn lemma_strip_block_unfold(s: Seq<char>)
    ensures
        find_pair(s, '/', '*') is None ==> strip_block(s) == s,
        find_pair(s, '/', '*') matches Some(i) ==> {
            &&& 0 <= i && i + 2 <= s.len()
            &&& find_pair(s.skip(i + 2), '*', '/') is None ==> strip_block(s) == s.take(i)
            &&& find_pair(s.skip(i + 2), '*', '/') matches Some(j) ==> {
                &&& 0 <= j && i + 2 + j + 2 <= s.len()
                &&& strip_block(s) == s.take(i) + strip_block(s.skip(i + 2 + j + 2))
            }
        },
{
    if let Some(i) = find_pair(s, '/', '*') {
        let after = s.skip(i + 2);
        if let Some(j) = find_pair(after, '*', '/') {
            assert(after.skip(j + 2) =~= s.skip(i + 2 + j + 2));
        }
    }
}

/// The characters of `v` with the block comments removed.
pub fn strip_block_chars(v: &Vec<char>) -> (r: Vec<char>)
    ensures
        r@ == strip_block(v@),
{
    let mut out: Vec<char> = Vec::new();
    let mut pos: usize = 0;
    assert(v@.skip(0) =~= v@);
    loop
        invariant
            pos <= v.len(),
            out@ + strip_block(v@.skip(pos as int)) == strip_block(v@),
        decreases v.len() - pos,
    {
        let ghost rest = v@.skip(pos as int);
        proof {
            lemma_strip_block_unfold(rest);
        }
        match find_pair_from(v, pos, '/', '*') {
            None => {
                let tail = subrange(v, pos, v.len());
                assert(tail@ =~= rest);
                append_chars(&mut out, &tail);
                return out;
            },
            Some(start) => {
                let head = subrange(v, pos, start);
                assert(head@ =~= rest.take(start - pos));
                let ghost out0 = out@;
                append_chars(&mut out, &head);
                assert(rest.skip(start - pos + 2) =~= v@.skip(start + 2));
                match find_pair_from(v, start + 2, '*', '/') {
                    None => {
                        assert(out@ =~= out0 + rest.take(start - pos));
                        return out;
                    },
                    Some(end) => {
                        assert(rest.skip(start - pos + 2 + (end - (start + 2)) + 2) =~= v@.skip(
                            end + 2,
                        ));
                        assert(out@ + strip_block(v@.skip(end + 2)) =~= out0 + (rest.take(
                            start - pos,
                        ) + strip_block(v@.skip(end + 2))));
                        pos = end + 2;
                    },
                }
            },
        }
    }
}

proof fn lemma_lines_unfold(s: Seq<char>)
    ensures
        s.len() == 0 ==> lines(s) == Seq::<Seq<char>>::empty(),
        s.len() > 0 && find_char(s, '\n') is None ==> lines(s) == seq![s],
        s.len() > 0 ==> (find_char(s, '\n') matches Some(i) ==> {
            &&& 0 <= i < s.len()
            &&& lines(s) == seq![strip_cr(s.take(i))] + lines(s.skip(i + 1))
        }),
{
    lemma_find_char_range(s, '\n');
}

proof fn lemma_join_push(m: Seq<Seq<char>>, y: Seq<char>)
    ensures
        join_lines(m.push(y)) == if m.len() == 0 {
            y
        } else {
            join_lines(m) + seq!['\n'] + y
        },
{
    assert(m.push(y).drop_last() =~= m);
    if m.len() == 0 {
        assert(m.push(y)[0] == y);
    }
}

/// A line without the carriage return of a `\r\n` ending.
fn without_cr(l: Vec<char>) -> (r: Vec<char>)
    ensures
        r@ == strip_cr(l@),
{
    if l.len() > 0 && l[l.len() - 1] == '\r' {
        let r = subrange(&l, 0, l.len() - 1);
        assert(r@ =~= l@.drop_last());
        r
    } else {
        l
    }
}

/// A line cut at its first `//`.
fn cut_comment(l: &Vec<char>) -> (r: Vec<char>)
    ensures
        r@ == cut_line_comment(l@),
{
    assert(l@.skip(0) =~= l@);
    match find_pair_from(l, 0, '/', '/') {
        Some(k) => {
            let r = subrange(l, 0, k);
            assert(r@ =~= l@.take(k as int));
            r
        },
        None => subrange(l, 0, l.len()),
    }
}

/// The characters of `v` with every line cut at its first `//`.
pub fn strip_line_chars(v: &Vec<char>) -> (r: Vec<char>)
    ensures
        r@ == strip_line(v@),
{
    let mut out: Vec<char> = Vec::new();
    let mut pos: usize = 0;
    let ghost mut done: Seq<Seq<char>> = Seq::empty();
    let mut first = true;
    assert(v@.skip(0) =~= v@);
    loop
        invariant
            pos <= v.len(),
            first == (done.len() == 0),
            done + lines(v@.skip(pos as int)) == lines(v@),
            out@ == join_lines(done.map_values(|l: Seq<char>| cut_line_comment(l))),
        decreases v.len() - pos,
    {
        let ghost rest = v@.skip(pos as int);
        proof {
            lemma_lines_unfold(rest);
        }
        if pos == v.len() {
            assert(done =~= lines(v@));
            return out;
        }
        let ghost cut_done = done.map_values(|l: Seq<char>| cut_line_comment(l));
        let (line, next) = match find_char_from(v, pos, '\n') {
            None => {
                let line = subrange(v, pos, v.len());
                assert(line@ =~= rest);
                (line, v.len())
            },
            Some(nl) => {
                let raw = subrange(v, pos, nl);
                assert(raw@ =~= rest.take(nl - pos));
                assert(rest.skip(nl - pos + 1) =~= v@.skip(nl + 1));
                (without_cr(raw), nl + 1)
            },
        };
        let code = cut_comment(&line);
        if !first {
            out.push('\n');
        }
        append_chars(&mut out, &code);
        proof {
            lemma_join_push(cut_done, code@);
            assert(done.push(line@).map_values(|l: Seq<char>| cut_line_comment(l)) =~= cut_done.push(
                code@,
            ));
            if next == v.len() {
                assert(v@.skip(next as int) =~= Seq::<char>::empty());
                lemma_lines_unfold(v@.skip(next as int));
            }
            assert(done.push(line@) + lines(v@.skip(next as int)) =~= done + lines(rest));
            done = done.push(line@);
        }
        first = false;
        pos = next;
    }
}

proof fn lemma_blocks_unfold(s: Seq<char>)
    ensures
        find_char(s, '{') is None ==> blocks_from(s) == Seq::<Seq<char>>::empty(),
        find_char(s, '{') matches Some(i) ==> {
            &&& 0 <= i < s.len()
            &&& find_char(s.skip(i + 1), '}') is None ==> blocks_from(s) == seq![s.skip(i + 1)]
            &&& find_char(s.skip(i + 1), '}') matches Some(j) ==> {
                &&& 0 <= j && i + 1 + j < s.len()
                &&& blocks_from(s) == seq![s.skip(i + 1).take(j)] + blocks_from(
                    s.skip(i + 1 + j + 1),
                )
            }
        },
{
    lemma_find_char_range(s, '{');
    if let Some(i) = find_char(s, '{') {
        let after = s.skip(i + 1);
        lemma_find_char_range(after, '}');
        if let Some(j) = find_char(after, '}') {
            assert(after.skip(j + 1) =~= s.skip(i + 1 + j + 1));
        }
    }
}

/// `ranges` picks out of `v` exactly the pieces `parts`.
pub open spec fn ranges_spell(v: Seq<char>, ranges: Seq<(usize, usize)>, parts: Seq<Seq<char>>) -> bool {
    &&& ranges.len() == parts.len()
    &&& forall|i: int|
        0 <= i < ranges.len() ==> {
            &&& (#[trigger] ranges[i]).0 <= ranges[i].1 <= v.len()
            &&& v.subrange(ranges[i].0 as int, ranges[i].1 as int) == parts[i]
        }
}

/// Where the blocks of the stylesheet `v` lie.
pub fn block_ranges(v: &Vec<char>) -> (r: Vec<(usize, usize)>)
    ensures
        ranges_spell(v@, r@, css_blocks(v@)),
{
    let mut r: Vec<(usize, usize)> = Vec::new();
    let mut pos: usize = 0;
    let ghost mut done: Seq<Seq<char>> = Seq::empty();
    assert(v@.skip(0) =~= v@);
    loop
        invariant_except_break
            pos <= v.len(),
            done + blocks_from(v@.skip(pos as int)) == blocks_from(v@),
        invariant
            ranges_spell(v@, r@, done),
        ensures
            done == blocks_from(v@),
        decreases v.len() - pos,
    {
        let ghost rest = v@.skip(pos as int);
        proof {
            lemma_blocks_unfold(rest);
        }
        match find_char_from(v, pos, '{') {
            None => {
                assert(done =~= blocks_from(v@));
                break ;
            },
            Some(start) => {
                assert(rest.skip(start - pos + 1) =~= v@.skip(start + 1));
                match find_char_from(v, start + 1, '}') {
                    None => {
                        r.push((start + 1, v.len()));
                        proof {
                            assert(v@.subrange(start + 1, v.len() as int) =~= v@.skip(start + 1));
                            done = done.push(v@.skip(start + 1));
                            assert(done =~= blocks_from(v@));
                        }
                        break ;
                    },
                    Some(end) => {
                        r.push((start + 1, end));
                        proof {
                            assert(v@.subrange(start + 1, end as int) =~= v@.skip(start + 1).take(
                                end - (start + 1),
                            ));
                            assert(rest.skip(start - pos + 1 + (end - (start + 1)) + 1) =~= v@.skip(
                                end + 1,
                            ));
                            assert(done.push(v@.subrange(start + 1, end as int)) + blocks_from(
                                v@.skip(end + 1),
                            ) =~= done + blocks_from(rest));
                            done = done.push(v@.subrange(start + 1, end as int));
                        }
                        pos = end + 1;
                    },
                }
            },
        }
    }
    if r.len() == 0 {
        r.push((0, v.len()));
        assert(v@.subrange(0, v.len() as int) =~= v@);
    }
    r
}

proof fn lemma_split_unfold(s: Seq<char>, c: char)
    ensures
        find_char(s, c) is None ==> split_char(s, c) == seq![s],
        find_char(s, c) matches Some(i) ==> {
            &&& 0 <= i < s.len()
            &&& split_char(s, c) == seq![s.take(i)] + split_char(s.skip(i + 1), c)
        },
{
    lemma_find_char_range(s, c);
}

/// Where the pieces of `v` between the separators `c` lie.
pub fn split_ranges(v: &Vec<char>, c: char) -> (r: Vec<(usize, usize)>)
    ensures
        ranges_spell(v@, r@, split_char(v@, c)),
{
    let mut r: Vec<(usize, usize)> = Vec::new();
    let mut pos: usize = 0;
    let ghost mut done: Seq<Seq<char>> = Seq::empty();
    assert(v@.skip(0) =~= v@);
    loop
        invariant
            pos <= v.len(),
            done + split_char(v@.skip(pos as int), c) == split_char(v@, c),
            ranges_spell(v@, r@, done),
        decreases v.len() - pos,
    {
        let ghost rest = v@.skip(pos as int);
        proof {
            lemma_split_unfold(rest, c);
        }
        match find_char_from(v, pos, c) {
            None => {
                r.push((pos, v.len()));
                proof {
                    assert(v@.subrange(pos as int, v.len() as int) =~= rest);
                    done = done.push(rest);
                    assert(done =~= split_char(v@, c));
                }
                return r;
            },
            Some(k) => {
                r.push((pos, k));
                proof {
                    assert(v@.subrange(pos as int, k as int) =~= rest.take(k - pos));
                    assert(rest.skip(k - pos + 1) =~= v@.skip(k + 1));
                    assert(done.push(rest.take(k - pos)) + split_char(v@.skip(k + 1), c) =~= done
                        + split_char(rest, c));
                    done = done.push(rest.take(k - pos));
                }
                pos = k + 1;
            },
        }
    }
}

/// The property name `key` as the theme knows it.
pub fn normalize_key_chars(key: &Vec<char>) -> (r: Vec<char>)
    ensures
        r@ == normalized_key(key@),
{
    let t = to_lower(&trimmed(key));
    let u = if t.len() >= 2 && t[0] == '-' && t[1] == '-' {
        let u = subrange(&t, 2, t.len());
        assert(u@ =~= t@.skip(2));
        u
    } else {
        t
    };
    let mut r: Vec<char> = Vec::new();
    let mut i: usize = 0;
    while i < u.len()
        invariant
            i <= u.len(),
            r@ == u@.take(i as int).map_values(|c: char| dash_to_underscore(c)),
        decreases u.len() - i,
    {
        let c = if u[i] == '-' {
            '_'
        } else {
            u[i]
        };
        r.push(c);
        assert(u@.take(i + 1).map_values(|c: char| dash_to_underscore(c)) =~= u@.take(
            i as int,
        ).map_values(|c: char| dash_to_underscore(c)).push(dash_to_underscore(u@[i as int])));
        i += 1;
    }
    assert(u@.take(u.len() as int) =~= u@);
    r
}

/// `input` without its `/* ... */` comments.
pub fn strip_block_comments(input: &str) -> (r: String)
    ensures
        r@ == strip_block(input@),
{
    from_chars(&strip_block_chars(&to_chars(input)))
}

/// `input` with every line cut at its first `//`, the lines joined with `\n`.
pub fn strip_line_comments(input: &str) -> (r: String)
    ensures
        r@ == strip_line(input@),
{
    from_chars(&strip_line_chars(&to_chars(input)))
}

/// `input` without block comments, then without line comments.
pub fn strip_comments(input: &str) -> (r: String)
    ensures
        r@ == strip_all(input@),
{
    let without_block = strip_block_comments(input);
    strip_line_comments(without_block.as_str())
}

/// The bodies of the blocks of `css`, each a slice of it.
pub fn extract_blocks(css: &str) -> (r: Vec<&str>)
    ensures
        r@.len() == css_blocks(css@).len(),
        forall|i: int| 0 <= i < r@.len() ==> (#[trigger] r@[i])@ == css_blocks(css@)[i],
{
    let v = to_chars(css);
    let ranges = block_ranges(&v);
    let mut r: Vec<&str> = Vec::new();
    let mut i: usize = 0;
    while i < ranges.len()
        invariant
            v@ == css@,
            ranges_spell(v@, ranges@, css_blocks(css@)),
            i <= ranges.len(),
            r@.len() == i,
            forall|k: int| 0 <= k < i ==> (#[trigger] r@[k])@ == css_blocks(css@)[k],
        decreases ranges.len() - i,
    {
        let (lo, hi) = ranges[i];
        r.push(css.substring_char(lo, hi));
        i += 1;
    }
    r
}

/// The property name `key` as the theme knows it.
pub fn normalize_key(key: &str) -> (r: String)
    ensures
        r@ == normalized_key(key@),
{
    from_chars(&normalize_key_chars(&to_chars(key)))
}

} // verus!
