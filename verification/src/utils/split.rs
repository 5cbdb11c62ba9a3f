//! Splitting text into lines, whitespace-separated words and delimited fields.

use crate::utils::text::{
    chars_of, seek, seek_from, skip_spaces, skip_spaces_from, skip_word, skip_word_from,
    text_of, trim, trimmed,
};
use vstd::prelude::*;
use vstd::string::StringExecFns;

verus! {

/// The texts that a sequence of strings holds.
pub open spec fn texts(v: Seq<String>) -> Seq<Seq<char>> {
    v.map_values(|s: String| s@)
}

/// `line` without one trailing carriage return.
pub open spec fn strip_cr(line: Seq<char>) -> Seq<char> {
    if line.len() > 0 && line.last() == '\r' {
        line.drop_last()
    } else {
        line
    }
}

/// The lines of `s` from index `i` on: a line ends at a line feed, which is
/// dropped together with a carriage return just before it; what follows the
/// last line feed is a line unless it is empty.
pub open spec fn lines_from(s: Seq<char>, i: int) -> Seq<Seq<char>>
    decreases s.len() - i,
{
    if 0 <= i < s.len() {
        let e = seek(s, '\n', i);
        if i <= e < s.len() {
            seq![strip_cr(s.subrange(i, e))] + lines_from(s, e + 1)
        } else {
            seq![s.subrange(i, s.len() as int)]
        }
    } else {
        Seq::empty()
    }
}

/// The lines of `s`.
pub open spec fn lines_of(s: Seq<char>) -> Seq<Seq<char>> {
    lines_from(s, 0)
}

/// The maximal runs of non-whitespace chars in `s` from index `i` on.
pub open spec fn words_from(s: Seq<char>, i: int) -> Seq<Seq<char>>
    decreases s.len() - i,
{
    let a = skip_spaces(s, i);
    let b = skip_word(s, a);
    if 0 <= i <= a < b <= s.len() {
        seq![s.subrange(a, b)] + words_from(s, b)
    } else {
        Seq::empty()
    }
}

/// The whitespace-separated words of `s`.
pub open spec fn words_of(s: Seq<char>) -> Seq<Seq<char>> {
    words_from(s, 0)
}

/// The pieces of `s` from index `i` on that the delimiter `c` separates.
pub open spec fn fields_from(s: Seq<char>, c: char, i: int) -> Seq<Seq<char>>
    decreases s.len() - i,
{
    let e = seek(s, c, i);
    if 0 <= i <= e < s.len() {
        seq![s.subrange(i, e)] + fields_from(s, c, e + 1)
    } else {
        seq![s.subrange(i, s.len() as int)]
    }
}

/// The pieces of `s` that the delimiter `c` separates; there is always one.
pub open spec fn fields_of(s: Seq<char>, c: char) -> Seq<Seq<char>> {
    fields_from(s, c, 0)
}

/// The first line of `s`, if `s` is not empty.
pub open spec fn first_line_of(s: Seq<char>) -> Option<Seq<char>> {
    if lines_of(s).len() > 0 {
        Some(lines_of(s)[0])
    } else {
        None
    }
}

/// The lines of `chars`, each as a string.
pub fn split_lines(chars: &[char]) -> (r: Vec<String>)
    ensures
        texts(r@) == lines_of(chars@),
{
    let mut out: Vec<String> = Vec::new();
    let mut i: usize = 0;
    while i < chars.len()
        invariant
            i <= chars.len(),
            lines_of(chars@) == texts(out@) + lines_from(chars@, i as int),
        decreases chars.len() - i,
    {
        let e = seek_from(chars, '\n', i);
        let ghost before = texts(out@);
        if e < chars.len() {
            let end: usize = if e > i && chars[e - 1] == '\r' {
                e - 1
            } else {
                e
            };
            let line = text_of(chars, i, end);
            assert(line@ =~= strip_cr(chars@.subrange(i as int, e as int)));
            out.push(line);
            assert(texts(out@) =~= before.push(line@));
            assert(texts(out@) + lines_from(chars@, e + 1) =~= before + lines_from(
                chars@,
                i as int,
            ));
            i = e + 1;
        } else {
            let line = text_of(chars, i, chars.len());
            out.push(line);
            assert(texts(out@) =~= before.push(line@));
            assert(texts(out@) + lines_from(chars@, chars.len() as int) =~= before + lines_from(
                chars@,
                i as int,
            ));
            i = chars.len();
        }
    }
    assert(texts(out@) + lines_from(chars@, i as int) =~= texts(out@));
    out
}

/// The whitespace-separated words of `chars`, each as a string.
pub fn split_words(chars: &[char]) -> (r: Vec<String>)
    ensures
        texts(r@) == words_of(chars@),
{
    let mut out: Vec<String> = Vec::new();
    let mut i: usize = 0;
    loop
        invariant
            i <= chars.len(),
            words_of(chars@) == texts(out@) + words_from(chars@, i as int),
        decreases chars.len() - i,
    {
        let a = skip_spaces_from(chars, i);
        let b = skip_word_from(chars, a);
        if a == b {
            assert(texts(out@) + words_from(chars@, i as int) =~= texts(out@));
            return out;
        }
        let ghost before = texts(out@);
        let word = text_of(chars, a, b);
        out.push(word);
        assert(texts(out@) =~= before.push(word@));
        assert(texts(out@) + words_from(chars@, b as int) =~= before + words_from(
            chars@,
            i as int,
        ));
        i = b;
    }
}

/// The pieces of `chars` that the delimiter `c` separates, each as a string.
pub fn split_fields(chars: &[char], c: char) -> (r: Vec<String>)
    ensures
        texts(r@) == fields_of(chars@, c),
        r.len() >= 1,
{
    let mut out: Vec<String> = Vec::new();
    let mut i: usize = 0;
    loop
        invariant
            i <= chars.len(),
            fields_of(chars@, c) == texts(out@) + fields_from(chars@, c, i as int),
        decreases chars.len() - i,
    {
        let e = seek_from(chars, c, i);
        let ghost before = texts(out@);
        if e < chars.len() {
            let piece = text_of(chars, i, e);
            out.push(piece);
            assert(texts(out@) =~= before.push(piece@));
            assert(texts(out@) + fields_from(chars@, c, e + 1) =~= before + fields_from(
                chars@,
                c,
                i as int,
            ));
            i = e + 1;
        } else {
            let piece = text_of(chars, i, chars.len());
            out.push(piece);
            assert(texts(out@) =~= before.push(piece@));
            assert(texts(out@) =~= before + fields_from(chars@, c, i as int));
            return out;
        }
    }
}

/// The lines of `s`.
pub fn lines(s: &str) -> (r: Vec<String>)
    ensures
        texts(r@) == lines_of(s@),
{
    let chars = chars_of(s);
    split_lines(chars.as_slice())
}

/// The whitespace-separated words of `s`.
pub fn split_whitespace(s: &str) -> (r: Vec<String>)
    ensures
        texts(r@) == words_of(s@),
{
    let chars = chars_of(s);
    split_words(chars.as_slice())
}

/// The pieces of `s` that the delimiter `c` separates.
pub fn split(s: &str, c: char) -> (r: Vec<String>)
    ensures
        texts(r@) == fields_of(s@, c),
        r.len() >= 1,
{
    let chars = chars_of(s);
    split_fields(chars.as_slice(), c)
}

/// The texts of `parts` in order, with `sep` between each two neighbours.
pub open spec fn joined(parts: Seq<Seq<char>>, sep: Seq<char>) -> Seq<char>
    decreases parts.len(),
{
    if parts.len() == 0 {
        Seq::empty()
    } else if parts.len() == 1 {
        parts[0]
    } else {
        joined(parts.drop_last(), sep) + sep + parts.last()
    }
}

/// The strings of `parts` in order, with `sep` between each two neighbours.
pub fn join(parts: &Vec<String>, sep: &str) -> (r: String)
    ensures
        r@ == joined(texts(parts@), sep@),
{
    let mut out = String::new();
    let mut i: usize = 0;
    while i < parts.len()
        invariant
            i <= parts.len(),
            out@ == joined(texts(parts@).take(i as int), sep@),
        decreases parts.len() - i,
    {
        proof {
            let all = texts(parts@);
            assert(all.take(i + 1).drop_last() =~= all.take(i as int));
            assert(all.take(i + 1).last() == parts[i as int]@);
        }
        if i > 0 {
            out.append(sep);
        }
        out.append(parts[i].as_str());
        proof {
            let all = texts(parts@);
            if i == 0 {
                assert(all.take(1)[0] == parts[0]@);
                assert(out@ =~= joined(all.take(1), sep@));
            } else {
                assert(out@ =~= joined(all.take(i + 1), sep@));
            }
        }
        i += 1;
    }
    assert(texts(parts@).take(i as int) =~= texts(parts@));
    out
}

/// Those of the first `n` lines that are not blank.
pub open spec fn nonblank_upto(ls: Seq<Seq<char>>, n: int) -> Seq<Seq<char>>
    decreases n,
{
    if n <= 0 {
        Seq::empty()
    } else if trimmed(ls[n - 1]).len() > 0 {
        nonblank_upto(ls, n - 1).push(ls[n - 1])
    } else {
        nonblank_upto(ls, n - 1)
    }
}

/// The lines of a text that are not blank.
pub open spec fn nonblank(content: Seq<char>) -> Seq<Seq<char>> {
    nonblank_upto(lines_of(content), lines_of(content).len() as int)
}

/// The lines of a text that are not blank.
pub fn nonblank_lines(content: &str) -> (r: Vec<String>)
    ensures
        texts(r@) == nonblank(content@),
{
    let ls = lines(content);
    let mut out: Vec<String> = Vec::new();
    let mut i: usize = 0;
    assert(texts(out@) =~= Seq::<Seq<char>>::empty());
    while i < ls.len()
        invariant
            i <= ls.len(),
            texts(ls@) == lines_of(content@),
            texts(out@) == nonblank_upto(texts(ls@), i as int),
        decreases ls.len() - i,
    {
        assert(texts(ls@)[i as int] == ls[i as int]@);
        if trim(ls[i].as_str()).as_str().unicode_len() > 0 {
            let ghost before = texts(out@);
            out.push(ls[i].clone());
            assert(texts(out@) =~= before.push(ls[i as int]@));
        }
        i += 1;
    }
    out
}

/// Each word is a run of chars of the text that is not empty and holds no
/// whitespace.
pub proof fn lemma_words_hold_no_space(s: Seq<char>, i: int)
    requires
        0 <= i <= s.len(),
    ensures
        forall|k: int|
            0 <= k < words_from(s, i).len() ==> (#[trigger] words_from(s, i)[k]).len() > 0
                && forall|j: int|
                0 <= j < words_from(s, i)[k].len() ==> !crate::utils::text::is_space(
                    words_from(s, i)[k][j],
                ),
    decreases s.len() - i,
{
    crate::utils::text::lemma_scan_bounds(s, ' ', i);
    let a = skip_spaces(s, i);
    crate::utils::text::lemma_scan_bounds(s, ' ', a);
    let b = skip_word(s, a);
    if a < b {
        lemma_words_hold_no_space(s, b);
        let rest = words_from(s, b);
        let all = words_from(s, i);
        assert(all =~= seq![s.subrange(a, b)] + rest);
        assert forall|k: int| 0 <= k < all.len() implies (#[trigger] all[k]).len() > 0 && forall|
            j: int,
        |
            0 <= j < all[k].len() ==> !crate::utils::text::is_space(all[k][j]) by {
            if k == 0 {
                assert(all[0] == s.subrange(a, b));
                assert forall|j: int| 0 <= j < all[0].len() implies !crate::utils::text::is_space(
                    all[0][j],
                ) by {
                    assert(all[0][j] == s[a + j]);
                }
            } else {
                assert(all[k] == rest[k - 1]);
            }
        }
    }
}

/// No line holds a line feed.
pub proof fn lemma_lines_hold_no_line_feed(s: Seq<char>, i: int)
    requires
        0 <= i <= s.len(),
    ensures
        forall|k: int, j: int|
            0 <= k < lines_from(s, i).len() && 0 <= j < lines_from(s, i)[k].len() ==> (
            #[trigger] lines_from(s, i)[k][j]) != '\n',
    decreases s.len() - i,
{
    if i < s.len() {
        crate::utils::text::lemma_scan_bounds(s, '\n', i);
        let e = seek(s, '\n', i);
        let all = lines_from(s, i);
        if e < s.len() {
            lemma_lines_hold_no_line_feed(s, e + 1);
            let rest = lines_from(s, e + 1);
            let first = strip_cr(s.subrange(i, e));
            assert(all =~= seq![first] + rest);
            assert forall|k: int, j: int| 0 <= k < all.len() && 0 <= j < all[k].len() implies (
            #[trigger] all[k][j]) != '\n' by {
                if k == 0 {
                    assert(all[0][j] == s[i + j]);
                } else {
                    assert(all[k] == rest[k - 1]);
                }
            }
        } else {
            assert(all =~= seq![s.subrange(i, s.len() as int)]);
            assert forall|k: int, j: int| 0 <= k < all.len() && 0 <= j < all[k].len() implies (
            #[trigger] all[k][j]) != '\n' by {
                assert(all[0][j] == s[i + j]);
            }
        }
    }
}

/// The fields of a text, put together again with the delimiter between
/// them, are the text.
pub proof fn lemma_fields_join_back(s: Seq<char>, c: char, i: int)
    requires
        0 <= i <= s.len(),
    ensures
        joined(fields_from(s, c, i), seq![c]) == s.subrange(i, s.len() as int),
        fields_from(s, c, i).len() >= 1,
    decreases s.len() - i,
{
    crate::utils::text::lemma_scan_bounds(s, c, i);
    let e = seek(s, c, i);
    let all = fields_from(s, c, i);
    if e < s.len() {
        lemma_fields_join_back(s, c, e + 1);
        let rest = fields_from(s, c, e + 1);
        assert(all =~= seq![s.subrange(i, e)] + rest);
        lemma_join_after_first(s.subrange(i, e), rest, seq![c]);
        assert(s.subrange(i, e) + seq![c] + s.subrange(e + 1, s.len() as int) =~= s.subrange(
            i,
            s.len() as int,
        ));
    } else {
        assert(all =~= seq![s.subrange(i, s.len() as int)]);
    }
}

/// Joining a first part with at least one further part puts the first part
/// and the separator before the join of the others.
pub proof fn lemma_join_after_first(first: Seq<char>, rest: Seq<Seq<char>>, sep: Seq<char>)
    requires
        rest.len() >= 1,
    ensures
        joined(seq![first] + rest, sep) == first + sep + joined(rest, sep),
    decreases rest.len(),
{
    let all = seq![first] + rest;
    if rest.len() == 1 {
        assert(all.drop_last() =~= seq![first]);
        assert(all.last() == rest[0]);
        assert(joined(all.drop_last(), sep) == first);
    } else {
        assert(all.drop_last() =~= seq![first] + rest.drop_last());
        assert(all.last() == rest.last());
        lemma_join_after_first(first, rest.drop_last(), sep);
        assert(first + sep + joined(rest.drop_last(), sep) + sep + rest.last() =~= first + sep + (
        joined(rest.drop_last(), sep) + sep + rest.last()));
    }
}

} // verus!
