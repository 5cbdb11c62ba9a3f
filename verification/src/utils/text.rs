//! Text as sequences of chars: conversion, comparison, trimming and searching.

use vstd::prelude::*;
use vstd::string::StringExecFns;

verus! {

/// Whether `c` has the Unicode `White_Space` property.
pub open spec fn is_space(c: char) -> bool {
    let u = c as u32;
    ||| 0x09 <= u <= 0x0D
    ||| u == 0x20
    ||| u == 0x85
    ||| u == 0xA0
    ||| u == 0x1680
    ||| 0x2000 <= u <= 0x200A
    ||| u == 0x2028
    ||| u == 0x2029
    ||| u == 0x202F
    ||| u == 0x205F
    ||| u == 0x3000
}

/// Whether `c` is one of the ASCII digits `0` to `9`.
pub open spec fn is_digit(c: char) -> bool {
    0x30 <= c as u32 <= 0x39
}

/// Whether `c` is an ASCII letter.
pub open spec fn is_ascii_letter(c: char) -> bool {
    0x41 <= c as u32 <= 0x5A || 0x61 <= c as u32 <= 0x7A
}

/// The first index at or after `i` that holds no whitespace, or the length.
pub open spec fn skip_spaces(s: Seq<char>, i: int) -> int
    decreases s.len() - i,
{
    if 0 <= i < s.len() && is_space(s[i]) {
        skip_spaces(s, i + 1)
    } else {
        i
    }
}

/// The first index at or after `i` that holds whitespace, or the length.
pub open spec fn skip_word(s: Seq<char>, i: int) -> int
    decreases s.len() - i,
{
    if 0 <= i < s.len() && !is_space(s[i]) {
        skip_word(s, i + 1)
    } else {
        i
    }
}

/// The end of `s[lo..j]` once its trailing whitespace is cut off.
pub open spec fn back_over_spaces(s: Seq<char>, lo: int, j: int) -> int
    decreases j - lo,
{
    if lo < j <= s.len() && is_space(s[j - 1]) {
        back_over_spaces(s, lo, j - 1)
    } else {
        j
    }
}

/// `s` without its leading and trailing whitespace.
pub open spec fn trimmed(s: Seq<char>) -> Seq<char> {
    let start = skip_spaces(s, 0);
    s.subrange(start, back_over_spaces(s, start, s.len() as int))
}

/// `s` without its trailing whitespace.
pub open spec fn trimmed_end(s: Seq<char>) -> Seq<char> {
    s.subrange(0, back_over_spaces(s, 0, s.len() as int))
}

/// Whether `s` begins with `prefix`.
pub open spec fn starts_with(s: Seq<char>, prefix: Seq<char>) -> bool {
    prefix.len() <= s.len() && s.subrange(0, prefix.len() as int) == prefix
}

/// Whether `s` ends with `suffix`.
pub open spec fn ends_with(s: Seq<char>, suffix: Seq<char>) -> bool {
    suffix.len() <= s.len() && s.subrange(s.len() - suffix.len(), s.len() as int) == suffix
}

/// Whether `needle` occurs in `s` at index `i`.
pub open spec fn occurs_at(s: Seq<char>, needle: Seq<char>, i: int) -> bool {
    0 <= i && i + needle.len() <= s.len() && s.subrange(i, i + needle.len()) == needle
}

/// Whether `needle` occurs somewhere in `s`.
pub open spec fn contains_text(s: Seq<char>, needle: Seq<char>) -> bool {
    exists|i: int| occurs_at(s, needle, i)
}

/// The first index at or after `i` that holds `c`, or the length.
pub open spec fn seek(s: Seq<char>, c: char, i: int) -> int
    decreases s.len() - i,
{
    if 0 <= i < s.len() && s[i] != c {
        seek(s, c, i + 1)
    } else {
        i
    }
}

/// The index of the first `c` in `s`, if there is one.
pub open spec fn index_of(s: Seq<char>, c: char) -> Option<int> {
    if seek(s, c, 0) < s.len() {
        Some(seek(s, c, 0))
    } else {
        None
    }
}

/// The bounds of the scans: each stops between its start and the length.
pub proof fn lemma_scan_bounds(s: Seq<char>, c: char, i: int)
    requires
        0 <= i <= s.len(),
    ensures
        i <= skip_spaces(s, i) <= s.len(),
        i <= skip_word(s, i) <= s.len(),
        i <= seek(s, c, i) <= s.len(),
        forall|k: int| i <= k < skip_spaces(s, i) ==> is_space(s[k]),
        forall|k: int| i <= k < skip_word(s, i) ==> !is_space(s[k]),
        forall|k: int| i <= k < seek(s, c, i) ==> s[k] != c,
        skip_spaces(s, i) < s.len() ==> !is_space(s[skip_spaces(s, i)]),
        skip_word(s, i) < s.len() ==> is_space(s[skip_word(s, i)]),
        seek(s, c, i) < s.len() ==> s[seek(s, c, i)] == c,
    decreases s.len() - i,
{
    if i < s.len() {
        lemma_scan_bounds(s, c, i + 1);
    }
}

/// The end that `back_over_spaces` finds lies between `lo` and `j`, holds no
/// whitespace just before it, and only whitespace follows it up to `j`.
pub proof fn lemma_back_bounds(s: Seq<char>, lo: int, j: int)
    requires
        0 <= lo <= j <= s.len(),
    ensures
        lo <= back_over_spaces(s, lo, j) <= j,
        forall|k: int| back_over_spaces(s, lo, j) <= k < j ==> is_space(s[k]),
        back_over_spaces(s, lo, j) > lo ==> !is_space(s[back_over_spaces(s, lo, j) - 1]),
    decreases j - lo,
{
    if lo < j && is_space(s[j - 1]) {
        lemma_back_bounds(s, lo, j - 1);
    }
}

/// The chars of a string slice, in order.
pub fn chars_of(s: &str) -> (v: Vec<char>)
    ensures
        v@ == s@,
{
    broadcast use vstd::string::group_string_axioms;

    let mut v: Vec<char> = Vec::new();
    for c in it: s.chars()
        invariant
            it.seq() == s@,
            v@ == it.seq().take(it.index()),
    {
        assert(it.seq().take(it.index() + 1) =~= it.seq().take(it.index()).push(c));
        v.push(c);
    }
    assert(s@.take(s@.len() as int) =~= s@);
    v
}

/// `String::from_iter` over a slice of chars: the string that holds exactly
/// those chars in that order.
#[verifier::external_body]
fn collect_chars(chars: &[char]) -> (s: String)
    ensures
        s@ == chars@,
{
    String::from_iter(chars)
}

/// The string made of `chars[from..to]`.
pub fn text_of(chars: &[char], from: usize, to: usize) -> (s: String)
    requires
        from <= to <= chars.len(),
    ensures
        s@ == chars@.subrange(from as int, to as int),
{
    collect_chars(vstd::slice::slice_subrange(chars, from, to))
}

/// Whether `c` is Unicode whitespace.
pub fn char_is_space(c: char) -> (b: bool)
    ensures
        b == is_space(c),
{
    let u: u32 = c as u32;
    (0x09 <= u && u <= 0x0D) || u == 0x20 || u == 0x85 || u == 0xA0 || u == 0x1680 || (0x2000 <= u
        && u <= 0x200A) || u == 0x2028 || u == 0x2029 || u == 0x202F || u == 0x205F || u == 0x3000
}

/// Whether `c` is an ASCII digit.
pub fn char_is_digit(c: char) -> (b: bool)
    ensures
        b == is_digit(c),
{
    let u: u32 = c as u32;
    0x30 <= u && u <= 0x39
}

/// Whether `c` is an ASCII letter.
pub fn char_is_ascii_letter(c: char) -> (b: bool)
    ensures
        b == is_ascii_letter(c),
{
    let u: u32 = c as u32;
    (0x41 <= u && u <= 0x5A) || (0x61 <= u && u <= 0x7A)
}

/// The first index at or after `i` whose char is not whitespace.
pub fn skip_spaces_from(chars: &[char], i: usize) -> (r: usize)
    requires
        i <= chars.len(),
    ensures
        r == skip_spaces(chars@, i as int),
        i <= r <= chars.len(),
{
    let mut k: usize = i;
    while k < chars.len() && char_is_space(chars[k])
        invariant
            i <= k <= chars.len(),
            skip_spaces(chars@, i as int) == skip_spaces(chars@, k as int),
        decreases chars.len() - k,
    {
        k += 1;
    }
    k
}

/// The first index at or after `i` whose char is whitespace.
pub fn skip_word_from(chars: &[char], i: usize) -> (r: usize)
    requires
        i <= chars.len(),
    ensures
        r == skip_word(chars@, i as int),
        i <= r <= chars.len(),
{
    let mut k: usize = i;
    while k < chars.len() && !char_is_space(chars[k])
        invariant
            i <= k <= chars.len(),
            skip_word(chars@, i as int) == skip_word(chars@, k as int),
        decreases chars.len() - k,
    {
        k += 1;
    }
    k
}

/// The end of `chars[lo..j]` without its trailing whitespace.
pub fn back_over_spaces_from(chars: &[char], lo: usize, j: usize) -> (r: usize)
    requires
        lo <= j <= chars.len(),
    ensures
        r == back_over_spaces(chars@, lo as int, j as int),
        lo <= r <= j,
{
    let mut k: usize = j;
    while k > lo && char_is_space(chars[k - 1])
        invariant
            lo <= k <= j <= chars.len(),
            back_over_spaces(chars@, lo as int, j as int) == back_over_spaces(
                chars@,
                lo as int,
                k as int,
            ),
        decreases k,
    {
        k -= 1;
    }
    k
}

/// The first index at or after `i` that holds `c`, or the length.
pub fn seek_from(chars: &[char], c: char, i: usize) -> (r: usize)
    requires
        i <= chars.len(),
    ensures
        r == seek(chars@, c, i as int),
        i <= r <= chars.len(),
{
    let mut k: usize = i;
    while k < chars.len() && chars[k] != c
        invariant
            i <= k <= chars.len(),
            seek(chars@, c, i as int) == seek(chars@, c, k as int),
        decreases chars.len() - k,
    {
        k += 1;
    }
    k
}

/// Whether `needle` occurs in `chars` at index `i`.
pub fn matches_at(chars: &[char], needle: &[char], i: usize) -> (b: bool)
    ensures
        b == occurs_at(chars@, needle@, i as int),
{
    if needle.len() > chars.len() || i > chars.len() - needle.len() {
        return false;
    }
    let mut k: usize = 0;
    while k < needle.len()
        invariant
            k <= needle.len(),
            i + needle.len() <= chars.len(),
            chars@.subrange(i as int, i + k) == needle@.subrange(0, k as int),
        decreases needle.len() - k,
    {
        if chars[i + k] != needle[k] {
            proof {
                let window = chars@.subrange(i as int, i + needle.len());
                assert(window[k as int] != needle@[k as int]);
            }
            return false;
        }
        assert(chars@.subrange(i as int, i + k + 1) =~= chars@.subrange(i as int, i + k).push(
            chars@[i + k],
        ));
        assert(needle@.subrange(0, k + 1) =~= needle@.subrange(0, k as int).push(needle@[k as int]));
        k += 1;
    }
    assert(needle@.subrange(0, needle.len() as int) =~= needle@);
    true
}

/// Whether two texts hold the same chars.
pub fn same_text(a: &[char], b: &[char]) -> (r: bool)
    ensures
        r == (a@ == b@),
{
    if a.len() != b.len() {
        return false;
    }
    let r = matches_at(a, b, 0);
    assert(a@.subrange(0, a.len() as int) =~= a@);
    r
}

/// Whether `chars` begins with `prefix`.
pub fn has_prefix(chars: &[char], prefix: &[char]) -> (b: bool)
    ensures
        b == starts_with(chars@, prefix@),
{
    matches_at(chars, prefix, 0)
}

/// Whether `chars` ends with `suffix`.
pub fn has_suffix(chars: &[char], suffix: &[char]) -> (b: bool)
    ensures
        b == ends_with(chars@, suffix@),
{
    if suffix.len() > chars.len() {
        return false;
    }
    matches_at(chars, suffix, chars.len() - suffix.len())
}

/// Whether `needle` occurs somewhere in `chars`.
pub fn has_text(chars: &[char], needle: &[char]) -> (b: bool)
    ensures
        b == contains_text(chars@, needle@),
{
    if needle.len() > chars.len() {
        return false;
    }
    let last: usize = chars.len() - needle.len();
    let mut i: usize = 0;
    loop
        invariant
            i <= last,
            last == chars.len() - needle.len(),
            forall|k: int| 0 <= k < i ==> !occurs_at(chars@, needle@, k),
        decreases last - i,
    {
        if matches_at(chars, needle, i) {
            return true;
        }
        if i == last {
            return false;
        }
        i += 1;
    }
}

/// `s` without its leading and trailing whitespace.
pub fn trim(s: &str) -> (r: String)
    ensures
        r@ == trimmed(s@),
{
    let chars = chars_of(s);
    let start = skip_spaces_from(chars.as_slice(), 0);
    let end = back_over_spaces_from(chars.as_slice(), start, chars.len());
    text_of(chars.as_slice(), start, end)
}

/// `s` without its trailing whitespace.
pub fn trim_end(s: &str) -> (r: String)
    ensures
        r@ == trimmed_end(s@),
{
    let chars = chars_of(s);
    let end = back_over_spaces_from(chars.as_slice(), 0, chars.len());
    text_of(chars.as_slice(), 0, end)
}

/// Whether two string slices hold the same text.
pub fn str_eq(a: &str, b: &str) -> (r: bool)
    ensures
        r == (a@ == b@),
{
    let x = chars_of(a);
    let y = chars_of(b);
    same_text(x.as_slice(), y.as_slice())
}

/// Whether `s` begins with `prefix`.
pub fn str_starts_with(s: &str, prefix: &str) -> (r: bool)
    ensures
        r == starts_with(s@, prefix@),
{
    let x = chars_of(s);
    let y = chars_of(prefix);
    has_prefix(x.as_slice(), y.as_slice())
}

/// Whether `s` ends with `suffix`.
pub fn str_ends_with(s: &str, suffix: &str) -> (r: bool)
    ensures
        r == ends_with(s@, suffix@),
{
    let x = chars_of(s);
    let y = chars_of(suffix);
    has_suffix(x.as_slice(), y.as_slice())
}

/// Whether `needle` occurs somewhere in `s`.
pub fn str_contains(s: &str, needle: &str) -> (r: bool)
    ensures
        r == contains_text(s@, needle@),
{
    let x = chars_of(s);
    let y = chars_of(needle);
    has_text(x.as_slice(), y.as_slice())
}

/// The text that `str::to_lowercase` returns for a text.
pub uninterp spec fn lowercase_of(s: Seq<char>) -> Seq<char>;

/// The text that `str::to_uppercase` returns for a text.
pub uninterp spec fn uppercase_of(s: Seq<char>) -> Seq<char>;

/// `str::to_lowercase`: the lowercase equivalent of `s` by the Unicode case
/// mappings, a function of the text alone.
#[verifier::external_body]
pub(crate) fn to_lowercase(s: &str) -> (r: String)
    ensures
        r@ == lowercase_of(s@),
{
    s.to_lowercase()
}

/// `str::to_uppercase`: the uppercase equivalent of `s` by the Unicode case
/// mappings, a function of the text alone.
#[verifier::external_body]
pub(crate) fn to_uppercase(s: &str) -> (r: String)
    ensures
        r@ == uppercase_of(s@),
{
    s.to_uppercase()
}

/// The texts `a` and `b` put together.
pub fn cat2(a: &str, b: &str) -> (r: String)
    ensures
        r@ == a@ + b@,
{
    let mut out = a.to_owned();
    out.append(b);
    out
}

/// The texts `a`, `b` and `c` put together.
pub fn cat3(a: &str, b: &str, c: &str) -> (r: String)
    ensures
        r@ == a@ + b@ + c@,
{
    let mut out = a.to_owned();
    out.append(b);
    out.append(c);
    out
}

/// The texts `a`, `b`, `c` and `d` put together.
pub fn cat4(a: &str, b: &str, c: &str, d: &str) -> (r: String)
    ensures
        r@ == a@ + b@ + c@ + d@,
{
    let mut out = a.to_owned();
    out.append(b);
    out.append(c);
    out.append(d);
    out
}

/// The texts `a`, `b`, `c`, `d` and `e` put together.
pub fn cat5(a: &str, b: &str, c: &str, d: &str, e: &str) -> (r: String)
    ensures
        r@ == a@ + b@ + c@ + d@ + e@,
{
    let mut out = a.to_owned();
    out.append(b);
    out.append(c);
    out.append(d);
    out.append(e);
    out
}

/// The first index at or after `i` at which `needle` occurs in `s`.
pub open spec fn find_from(s: Seq<char>, needle: Seq<char>, i: int) -> Option<int>
    decreases s.len() - i,
{
    if i < 0 || i + needle.len() > s.len() {
        None
    } else if occurs_at(s, needle, i) {
        Some(i)
    } else if i < s.len() {
        find_from(s, needle, i + 1)
    } else {
        None
    }
}

/// The first index at which `needle` occurs in `s`.
pub open spec fn find_text(s: Seq<char>, needle: Seq<char>) -> Option<int> {
    find_from(s, needle, 0)
}

/// `s` without the chars `c` at its end.
pub open spec fn without_trailing(s: Seq<char>, c: char) -> Seq<char>
    decreases s.len(),
{
    if s.len() > 0 && s.last() == c {
        without_trailing(s.drop_last(), c)
    } else {
        s
    }
}

/// The first index at which `needle` occurs in `chars`.
pub fn find_in(chars: &[char], needle: &[char]) -> (r: Option<usize>)
    ensures
        r matches Some(k) ==> find_text(chars@, needle@) == Some(k as int) && k + needle.len()
            <= chars.len(),
        r is None ==> find_text(chars@, needle@) is None,
{
    if needle.len() > chars.len() {
        return None;
    }
    let last: usize = chars.len() - needle.len();
    let mut i: usize = 0;
    loop
        invariant
            i <= last,
            last == chars.len() - needle.len(),
            find_text(chars@, needle@) == find_from(chars@, needle@, i as int),
        decreases last - i,
    {
        if matches_at(chars, needle, i) {
            return Some(i);
        }
        if i == last {
            assert(find_from(chars@, needle@, i + 1) is None);
            return None;
        }
        i += 1;
    }
}

/// `s` without the chars `c` at its end.
pub fn trim_end_matches(s: &str, c: char) -> (r: String)
    ensures
        r@ == without_trailing(s@, c),
{
    let chars = chars_of(s);
    let mut end: usize = chars.len();
    assert(chars@.subrange(0, chars.len() as int) =~= chars@);
    while end > 0 && chars[end - 1] == c
        invariant
            end <= chars.len(),
            without_trailing(chars@, c) == without_trailing(chars@.subrange(0, end as int), c),
        decreases end,
    {
        assert(chars@.subrange(0, end as int).drop_last() =~= chars@.subrange(0, end - 1));
        assert(chars@.subrange(0, end as int).last() == c);
        end -= 1;
    }
    proof {
        let kept = chars@.subrange(0, end as int);
        assert(kept.len() > 0 ==> kept.last() == chars@[end - 1]);
        assert(without_trailing(kept, c) == kept);
    }
    text_of(chars.as_slice(), 0, end)
}

/// `s` from index `i` on without the occurrences of `needle`, found from
/// left to right without overlap.
pub open spec fn erased_from(s: Seq<char>, needle: Seq<char>, i: int) -> Seq<char>
    decreases s.len() - i,
{
    if i < 0 || i >= s.len() {
        Seq::empty()
    } else if needle.len() > 0 && occurs_at(s, needle, i) {
        erased_from(s, needle, i + needle.len())
    } else {
        seq![s[i]] + erased_from(s, needle, i + 1)
    }
}

/// `s` without the occurrences of `needle`.
pub open spec fn erased(s: Seq<char>, needle: Seq<char>) -> Seq<char> {
    erased_from(s, needle, 0)
}

/// `s` without the occurrences of `needle`.
pub fn erase(s: &str, needle: &str) -> (r: String)
    ensures
        r@ == erased(s@, needle@),
{
    let chars = chars_of(s);
    let pat = chars_of(needle);
    let mut out: Vec<char> = Vec::new();
    let mut i: usize = 0;
    assert(out@ + erased_from(chars@, pat@, 0) =~= erased(chars@, pat@));
    while i < chars.len()
        invariant
            i <= chars.len(),
            erased(chars@, pat@) == out@ + erased_from(chars@, pat@, i as int),
        decreases chars.len() - i,
    {
        if pat.len() > 0 && matches_at(chars.as_slice(), pat.as_slice(), i) {
            i += pat.len();
        } else {
            let ghost before = out@;
            out.push(chars[i]);
            assert(out@ + erased_from(chars@, pat@, i + 1) =~= before + erased_from(
                chars@,
                pat@,
                i as int,
            ));
            i += 1;
        }
    }
    assert(out@ + erased_from(chars@, pat@, i as int) =~= out@);
    assert(out@.subrange(0, out.len() as int) =~= out@);
    text_of(out.as_slice(), 0, out.len())
}

/// A trimmed text begins and ends with a char that is not whitespace, and
/// everything that was cut off is whitespace.
pub proof fn lemma_trimmed_is_tight(s: Seq<char>)
    ensures
        trimmed(s).len() > 0 ==> !is_space(trimmed(s).first()) && !is_space(trimmed(s).last()),
        trimmed(s).len() <= s.len(),
        ({
            let start = skip_spaces(s, 0);
            let end = back_over_spaces(s, start, s.len() as int);
            &&& 0 <= start <= end <= s.len()
            &&& forall|k: int| 0 <= k < start ==> is_space(s[k])
            &&& forall|k: int| end <= k < s.len() ==> is_space(s[k])
        }),
{
    lemma_scan_bounds(s, ' ', 0);
    let start = skip_spaces(s, 0);
    lemma_back_bounds(s, start, s.len() as int);
}

/// Trimming a trimmed text changes nothing.
pub proof fn lemma_trim_idempotent(s: Seq<char>)
    ensures
        trimmed(trimmed(s)) == trimmed(s),
{
    lemma_trimmed_is_tight(s);
    let t = trimmed(s);
    if t.len() > 0 {
        assert(skip_spaces(t, 0) == 0);
        assert(back_over_spaces(t, 0, t.len() as int) == t.len());
        assert(t.subrange(0, t.len() as int) =~= t);
    } else {
        assert(skip_spaces(t, 0) == 0);
        assert(t.subrange(0, 0) =~= t);
    }
}

/// The index that a search finds is the first at which the needle occurs.
pub proof fn lemma_find_is_first(s: Seq<char>, needle: Seq<char>, i: int)
    requires
        0 <= i,
    ensures
        match find_from(s, needle, i) {
            Some(at) => i <= at && occurs_at(s, needle, at) && forall|k: int|
                i <= k < at ==> !occurs_at(s, needle, k),
            None => forall|k: int| i <= k ==> !occurs_at(s, needle, k),
        },
    decreases s.len() - i,
{
    if i + needle.len() <= s.len() && !occurs_at(s, needle, i) && i < s.len() {
        lemma_find_is_first(s, needle, i + 1);
    }
}

/// A text holds a needle exactly where a search for it finds an index.
pub proof fn lemma_contains_iff_found(s: Seq<char>, needle: Seq<char>)
    ensures
        contains_text(s, needle) <==> find_text(s, needle) is Some,
{
    lemma_find_is_first(s, needle, 0);
}

} // verus!
