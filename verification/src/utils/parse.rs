//! Parsing helpers for system output and files.

use crate::utils::split::{split_words, texts, words_of};
use crate::utils::text::{
    back_over_spaces_from, char_is_ascii_letter, char_is_digit, chars_of, index_of, is_ascii_letter,
    is_digit, seek_from, skip_spaces_from, str_eq, text_of, to_uppercase, trimmed, uppercase_of,
};
use crate::utils::format::{decimal_text, digit_char};
use vstd::prelude::*;

verus! {

/// The value of an ASCII digit.
pub open spec fn digit_value(c: char) -> nat {
    (c as u32 - 0x30) as nat
}

/// Whether `s` holds ASCII digits only.
pub open spec fn all_digits(s: Seq<char>) -> bool {
    forall|i: int| 0 <= i < s.len() ==> is_digit(#[trigger] s[i])
}

/// The number that a run of digits denotes in base ten; the empty run denotes 0.
pub open spec fn decimal_value(s: Seq<char>) -> nat
    decreases s.len(),
{
    if s.len() == 0 {
        0
    } else {
        decimal_value(s.drop_last()) * 10 + digit_value(s.last())
    }
}

/// The number that `s` denotes: one or more digits, after an optional `+`.
pub open spec fn unsigned_of(s: Seq<char>) -> Option<nat> {
    let body = if s.len() > 0 && s[0] == '+' {
        s.drop_first()
    } else {
        s
    };
    if body.len() > 0 && all_digits(body) {
        Some(decimal_value(body))
    } else {
        None
    }
}

/// The integer that `s` denotes: one or more digits, after an optional sign.
pub open spec fn signed_of(s: Seq<char>) -> Option<int> {
    if s.len() > 0 && s[0] == '-' {
        let body = s.drop_first();
        if body.len() > 0 && all_digits(body) {
            Some(-(decimal_value(body) as int))
        } else {
            None
        }
    } else {
        match unsigned_of(s) {
            Some(n) => Some(n as int),
            None => None,
        }
    }
}

/// The number that `s` denotes, if it is at most `max`.
pub open spec fn unsigned_up_to(s: Seq<char>, max: nat) -> Option<nat> {
    match unsigned_of(s) {
        Some(n) if n <= max => Some(n),
        _ => None,
    }
}

/// The `u64` that `s` denotes.
pub open spec fn u64_of(s: Seq<char>) -> Option<u64> {
    match unsigned_up_to(s, u64::MAX as nat) {
        Some(n) => Some(n as u64),
        None => None,
    }
}

/// The `i64` that `s` denotes.
pub open spec fn i64_of(s: Seq<char>) -> Option<i64> {
    match signed_of(s) {
        Some(n) if i64::MIN <= n <= i64::MAX => Some(n as i64),
        _ => None,
    }
}

/// A run of digits denotes at least what each of its prefixes denotes.
pub proof fn lemma_decimal_value_grows(s: Seq<char>, k: int)
    requires
        0 <= k <= s.len(),
    ensures
        decimal_value(s.take(k)) <= decimal_value(s),
    decreases s.len(),
{
    if k == s.len() {
        assert(s.take(k) =~= s);
    } else {
        assert(s.drop_last().take(k) =~= s.take(k));
        lemma_decimal_value_grows(s.drop_last(), k);
    }
}

/// The number that the digits `chars[from..]` denote, if it is at most `max`.
fn digits_up_to(chars: &[char], from: usize, max: u64) -> (r: Option<u64>)
    requires
        from <= chars.len(),
    ensures
        ({
            let body = chars@.subrange(from as int, chars.len() as int);
            r == if body.len() > 0 && all_digits(body) && decimal_value(body) <= max {
                Some(decimal_value(body) as u64)
            } else {
                None
            }
        }),
{
    let ghost body = chars@.subrange(from as int, chars.len() as int);
    if from == chars.len() {
        return None;
    }
    let mut acc: u64 = 0;
    let mut k: usize = from;
    while k < chars.len()
        invariant
            from <= k <= chars.len(),
            body == chars@.subrange(from as int, chars.len() as int),
            all_digits(body.take(k - from)),
            acc == decimal_value(body.take(k - from)),
            acc <= max,
        decreases chars.len() - k,
    {
        let c = chars[k];
        proof {
            assert(body[k - from] == c);
            assert(body.take(k - from + 1).drop_last() =~= body.take(k - from));
            assert(body.take(k - from + 1).last() == c);
        }
        if !char_is_digit(c) {
            return None;
        }
        let d: u64 = (c as u32 - 0x30) as u64;
        if d > max || acc > (max - d) / 10 {
            proof {
                lemma_decimal_value_grows(body, k - from + 1);
            }
            return None;
        }
        acc = acc * 10 + d;
        k += 1;
    }
    assert(body.take(k - from) =~= body);
    Some(acc)
}

/// The number that `chars` denotes as an unsigned decimal, if it is at most `max`.
pub fn parse_unsigned(chars: &[char], max: u64) -> (r: Option<u64>)
    ensures
        r == match unsigned_up_to(chars@, max as nat) {
            Some(n) => Some(n as u64),
            None => None,
        },
{
    let from: usize = if chars.len() > 0 && chars[0] == '+' {
        1
    } else {
        0
    };
    proof {
        if from == 1 {
            assert(chars@.subrange(1, chars.len() as int) =~= chars@.drop_first());
        } else {
            assert(chars@.subrange(0, chars.len() as int) =~= chars@);
        }
    }
    digits_up_to(chars, from, max)
}

/// The integer that `chars` denotes as a signed decimal, if it fits in an `i64`.
pub fn parse_signed(chars: &[char]) -> (r: Option<i64>)
    ensures
        r == i64_of(chars@),
{
    if chars.len() > 0 && chars[0] == '-' {
        assert(chars@.subrange(1, chars.len() as int) =~= chars@.drop_first());
        match digits_up_to(chars, 1, 0x8000_0000_0000_0000) {
            Some(m) => {
                if m == 0x8000_0000_0000_0000 {
                    Some(i64::MIN)
                } else {
                    Some(-(m as i64))
                }
            },
            None => None,
        }
    } else {
        match parse_unsigned(chars, 0x7fff_ffff_ffff_ffff) {
            Some(m) => Some(m as i64),
            None => None,
        }
    }
}

/// Parse a string into a number, returning None on failure.
///
/// Whitespace around the number is ignored.
pub fn parse_u64(s: &str) -> (r: Option<u64>)
    ensures
        r == u64_of(trimmed(s@)),
{
    let chars = chars_of(s);
    let start = skip_spaces_from(chars.as_slice(), 0);
    let end = back_over_spaces_from(chars.as_slice(), start, chars.len());
    let body = vstd::slice::slice_subrange(chars.as_slice(), start, end);
    parse_unsigned(body, u64::MAX)
}

/// Parse a string into a signed number, returning None on failure.
///
/// Whitespace around the number is ignored.
pub fn parse_i64(s: &str) -> (r: Option<i64>)
    ensures
        r == i64_of(trimmed(s@)),
{
    let chars = chars_of(s);
    let start = skip_spaces_from(chars.as_slice(), 0);
    let end = back_over_spaces_from(chars.as_slice(), start, chars.len());
    let body = vstd::slice::slice_subrange(chars.as_slice(), start, end);
    parse_signed(body)
}

/// The index just after the last ASCII digit of `s[..j]`, or 0 if it holds none.
pub open spec fn after_last_digit(s: Seq<char>, j: int) -> int
    decreases j,
{
    if 0 < j <= s.len() && !is_digit(s[j - 1]) {
        after_last_digit(s, j - 1)
    } else {
        j
    }
}

/// The multiplier that an upper-case unit suffix stands for: powers of 1000
/// for `K`, `M`, `G`, `T` (with or without `B`), powers of 1024 for `KI`, `MI`,
/// `GI`, `TI` (with or without `B`), and 1 for no suffix.
pub open spec fn factor_of(suffix: Seq<char>) -> Option<u64> {
    if suffix == ""@ {
        Some(1u64)
    } else if suffix == "K"@ || suffix == "KB"@ {
        Some(1_000u64)
    } else if suffix == "KI"@ || suffix == "KIB"@ {
        Some(1_024u64)
    } else if suffix == "M"@ || suffix == "MB"@ {
        Some(1_000_000u64)
    } else if suffix == "MI"@ || suffix == "MIB"@ {
        Some(1_048_576u64)
    } else if suffix == "G"@ || suffix == "GB"@ {
        Some(1_000_000_000u64)
    } else if suffix == "GI"@ || suffix == "GIB"@ {
        Some(1_073_741_824u64)
    } else if suffix == "T"@ || suffix == "TB"@ {
        Some(1_000_000_000_000u64)
    } else if suffix == "TI"@ || suffix == "TIB"@ {
        Some(1_099_511_627_776u64)
    } else {
        None
    }
}

/// Where the number of a trimmed size text ends and its unit suffix begins:
/// after the last digit if the text ends in an ASCII letter, at the end otherwise.
pub open spec fn suffix_start(t: Seq<char>) -> int {
    if t.len() > 0 && is_ascii_letter(t.last()) {
        after_last_digit(t, t.len() as int)
    } else {
        t.len() as int
    }
}

/// The size in bytes that a number and an upper-cased unit suffix denote, if
/// both are valid and the product fits in a `u64`.
pub open spec fn scaled(number: Seq<char>, suffix_upper: Seq<char>) -> Option<u64> {
    match (u64_of(number), factor_of(suffix_upper)) {
        (Some(n), Some(f)) => if n * f <= u64::MAX {
            Some((n * f) as u64)
        } else {
            None
        },
        _ => None,
    }
}

/// The size in bytes that a human-readable text such as `100M` or `1GiB` denotes.
pub open spec fn human_size_of(s: Seq<char>) -> Option<u64> {
    let t = trimmed(s);
    let cut = suffix_start(t);
    scaled(t.subrange(0, cut), uppercase_of(t.subrange(cut, t.len() as int)))
}

/// The key and the value of a `key: value` line: the key is what stands before
/// the first colon, trimmed; the value is the first word after it.
pub open spec fn key_value_of(line: Seq<char>) -> Option<(Seq<char>, Seq<char>)> {
    let t = trimmed(line);
    match index_of(t, ':') {
        Some(colon) => {
            let rest = words_of(t.subrange(colon + 1, t.len() as int));
            if rest.len() > 0 {
                Some((trimmed(t.subrange(0, colon)), rest[0]))
            } else {
                None
            }
        },
        None => None,
    }
}

/// The multiplier of an upper-case unit suffix.
pub fn size_factor(suffix_upper: &str) -> (r: Option<u64>)
    ensures
        r == factor_of(suffix_upper@),
{
    let s = suffix_upper;
    if str_eq(s, "") {
        Some(1)
    } else if str_eq(s, "K") || str_eq(s, "KB") {
        Some(1_000)
    } else if str_eq(s, "KI") || str_eq(s, "KIB") {
        Some(1_024)
    } else if str_eq(s, "M") || str_eq(s, "MB") {
        Some(1_000_000)
    } else if str_eq(s, "MI") || str_eq(s, "MIB") {
        Some(1_048_576)
    } else if str_eq(s, "G") || str_eq(s, "GB") {
        Some(1_000_000_000)
    } else if str_eq(s, "GI") || str_eq(s, "GIB") {
        Some(1_073_741_824)
    } else if str_eq(s, "T") || str_eq(s, "TB") {
        Some(1_000_000_000_000)
    } else if str_eq(s, "TI") || str_eq(s, "TIB") {
        Some(1_099_511_627_776)
    } else {
        None
    }
}

/// The size in bytes of a number text scaled by an upper-cased unit suffix.
pub fn scale_size(number: &[char], suffix_upper: &str) -> (r: Option<u64>)
    ensures
        r == scaled(number@, suffix_upper@),
{
    let n = match parse_unsigned(number, u64::MAX) {
        Some(n) => n,
        None => { return None; },
    };
    let f = match size_factor(suffix_upper) {
        Some(f) => f,
        None => { return None; },
    };
    n.checked_mul(f)
}

/// Parse size from human-readable string (e.g. "100M", "1G"). Returns bytes,
/// or None where the text is no size or the size does not fit in a `u64`.
pub fn parse_size_human(s: &str) -> (r: Option<u64>)
    ensures
        r == human_size_of(s@),
{
    let all = chars_of(s);
    let start = skip_spaces_from(all.as_slice(), 0);
    let end = back_over_spaces_from(all.as_slice(), start, all.len());
    let t = vstd::slice::slice_subrange(all.as_slice(), start, end);
    let mut cut: usize = t.len();
    if t.len() > 0 && char_is_ascii_letter(t[t.len() - 1]) {
        while cut > 0 && !char_is_digit(t[cut - 1])
            invariant
                cut <= t.len(),
                after_last_digit(t@, t.len() as int) == after_last_digit(t@, cut as int),
            decreases cut,
        {
            cut -= 1;
        }
    }
    let suffix = text_of(t, cut, t.len());
    let upper = to_uppercase(suffix.as_str());
    scale_size(vstd::slice::slice_subrange(t, 0, cut), upper.as_str())
}

/// Parse key: value line (e.g. from /proc/meminfo).
pub fn parse_key_value(line: &str) -> (r: Option<(String, String)>)
    ensures
        match key_value_of(line@) {
            Some(kv) => r matches Some(got) && got.0@ == kv.0 && got.1@ == kv.1,
            None => r is None,
        },
{
    let all = chars_of(line);
    let start = skip_spaces_from(all.as_slice(), 0);
    let end = back_over_spaces_from(all.as_slice(), start, all.len());
    let t = vstd::slice::slice_subrange(all.as_slice(), start, end);
    let colon = seek_from(t, ':', 0);
    if colon >= t.len() {
        return None;
    }
    let mut rest = split_words(vstd::slice::slice_subrange(t, colon + 1, t.len()));
    if rest.len() == 0 {
        return None;
    }
    let key_start = skip_spaces_from(vstd::slice::slice_subrange(t, 0, colon), 0);
    let key_end = back_over_spaces_from(
        vstd::slice::slice_subrange(t, 0, colon),
        key_start,
        colon,
    );
    let key = text_of(vstd::slice::slice_subrange(t, 0, colon), key_start, key_end);
    let ghost words = texts(rest@);
    let value = rest.swap_remove(0);
    assert(value@ == words[0]);
    Some((key, value))
}

/// Parse key: value and convert the value to a number.
pub fn parse_key_value_as(line: &str) -> (r: Option<(String, u64)>)
    ensures
        match key_value_of(line@) {
            Some(kv) => match u64_of(kv.1) {
                Some(n) => r matches Some(got) && got.0@ == kv.0 && got.1 == n,
                None => r is None,
            },
            None => r is None,
        },
{
    match parse_key_value(line) {
        Some((key, value)) => {
            let chars = chars_of(value.as_str());
            match parse_unsigned(chars.as_slice(), u64::MAX) {
                Some(n) => Some((key, n)),
                None => None,
            }
        },
        None => None,
    }
}

/// The unsigned number that a text denotes, without trimming.
pub fn plain_u64(s: &str) -> (r: Option<u64>)
    ensures
        r == u64_of(s@),
{
    let chars = chars_of(s);
    parse_unsigned(chars.as_slice(), u64::MAX)
}

/// The signed number that a text denotes, without trimming.
pub fn plain_i64(s: &str) -> (r: Option<i64>)
    ensures
        r == i64_of(s@),
{
    let chars = chars_of(s);
    parse_signed(chars.as_slice())
}

/// The decimal notation of a number is read back as that number.
pub proof fn lemma_decimal_round_trip(n: nat)
    ensures
        decimal_text(n).len() > 0,
        all_digits(decimal_text(n)),
        decimal_value(decimal_text(n)) == n,
        unsigned_of(decimal_text(n)) == Some(n),
    decreases n,
{
    let text = decimal_text(n);
    if n < 10 {
        assert(text =~= seq![digit_char(n)]);
        assert(text.drop_last() =~= Seq::<char>::empty());
        assert(decimal_value(text.drop_last()) == 0);
        assert(digit_value(text.last()) == n);
    } else {
        lemma_decimal_round_trip(n / 10);
        let front = decimal_text(n / 10);
        assert(text.drop_last() =~= front);
        assert(text.last() == digit_char(n % 10));
        assert(digit_value(text.last()) == n % 10);
        assert forall|i: int| 0 <= i < text.len() implies is_digit(#[trigger] text[i]) by {
            if i < front.len() {
                assert(text[i] == front[i]);
            }
        }
    }
    assert(text[0] != '+');
}

} // verus!
