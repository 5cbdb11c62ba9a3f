//! Output formatting helpers (decimal numbers, human-readable sizes, durations).

use crate::utils::text::text_of;
use vstd::prelude::*;

verus! {

/// The char of a decimal digit.
pub open spec fn digit_char(d: nat) -> char
    recommends
        d < 10,
{
    ((0x30 + d) as u8) as char
}

/// The decimal notation of a natural number, without leading zeros.
pub open spec fn decimal_text(n: nat) -> Seq<char>
    decreases n,
{
    if n < 10 {
        seq![digit_char(n)]
    } else {
        decimal_text(n / 10).push(digit_char(n % 10))
    }
}

/// The decimal notation of an integer, with `-` before a negative one.
pub open spec fn signed_text(n: int) -> Seq<char> {
    if n < 0 {
        seq!['-'] + decimal_text((-n) as nat)
    } else {
        decimal_text(n as nat)
    }
}

/// The text of a boolean: `true` or `false`.
pub open spec fn bool_text(b: bool) -> Seq<char> {
    if b {
        "true"@
    } else {
        "false"@
    }
}

/// The text that `bytesize::ByteSize::to_string_as` gives for a number of
/// bytes with binary units.
pub uninterp spec fn byte_size_text(bytes: u64) -> Seq<char>;

/// The text that `humantime` gives for a duration of `secs` seconds and
/// `nanos` nanoseconds.
pub uninterp spec fn duration_text(secs: u64, nanos: u32) -> Seq<char>;

/// Appends the decimal notation of `n` to `out`.
fn push_decimal(n: u64, out: &mut Vec<char>)
    ensures
        final(out)@ == old(out)@ + decimal_text(n as nat),
    decreases n,
{
    if n >= 10 {
        push_decimal(n / 10, out);
    }
    let d: u8 = (n % 10) as u8;
    out.push((0x30 + d) as char);
    assert(out@ =~= old(out)@ + decimal_text(n as nat));
}

/// The decimal notation of `n`.
pub fn u64_to_string(n: u64) -> (s: String)
    ensures
        s@ == decimal_text(n as nat),
{
    let mut out: Vec<char> = Vec::new();
    push_decimal(n, &mut out);
    assert(out@ =~= decimal_text(n as nat));
    assert(out@.subrange(0, out.len() as int) =~= out@);
    text_of(out.as_slice(), 0, out.len())
}

/// The decimal notation of `n`, with `-` before a negative number.
pub fn i64_to_string(n: i64) -> (s: String)
    ensures
        s@ == signed_text(n as int),
{
    let mut out: Vec<char> = Vec::new();
    if n < 0 {
        out.push('-');
        let magnitude: u64 = if n == i64::MIN {
            0x8000_0000_0000_0000
        } else {
            (-n) as u64
        };
        push_decimal(magnitude, &mut out);
        assert(out@ =~= signed_text(n as int));
    } else {
        push_decimal(n as u64, &mut out);
        assert(out@ =~= signed_text(n as int));
    }
    assert(out@.subrange(0, out.len() as int) =~= out@);
    text_of(out.as_slice(), 0, out.len())
}

/// The text of a boolean.
pub fn bool_to_string(b: bool) -> (s: String)
    ensures
        s@ == bool_text(b),
{
    if b {
        "true".to_owned()
    } else {
        "false".to_owned()
    }
}

/// `bytesize::ByteSize::b(bytes).to_string_as(true)`: the size with one
/// decimal and a binary unit (`KiB`, `MiB`, ...), a function of the number
/// alone; below 1024 it is the plain number followed by ` B`.
#[verifier::external_body]
fn byte_size_to_string(bytes: u64) -> (s: String)
    ensures
        s@ == byte_size_text(bytes),
        bytes < 1024 ==> s@ == decimal_text(bytes as nat) + " B"@,
{
    bytesize::ByteSize::b(bytes).to_string_as(true)
}

/// `humantime::Duration::from(..).to_string()` on a duration of `secs`
/// seconds and `nanos` nanoseconds: the units that are not zero, largest
/// first, a function of the two numbers alone; the zero duration gives `0s`.
#[verifier::external_body]
fn duration_to_string(secs: u64, nanos: u32) -> (s: String)
    requires
        nanos < 1_000_000_000,
    ensures
        s@ == duration_text(secs, nanos),
        secs == 0 && nanos == 0 ==> s@ == "0s"@,
{
    humantime::Duration::from(std::time::Duration::new(secs, nanos)).to_string()
}

/// Format bytes as human-readable size (e.g. "1.2 GiB").
pub fn format_bytes(bytes: u64) -> (s: String)
    ensures
        s@ == byte_size_text(bytes),
        bytes < 1024 ==> s@ == decimal_text(bytes as nat) + " B"@,
{
    byte_size_to_string(bytes)
}

/// Format duration in human form (e.g. "3h 24m"), given its whole seconds
/// and the nanoseconds beyond them.
pub fn format_duration(secs: u64, subsec_nanos: u32) -> (s: String)
    requires
        subsec_nanos < 1_000_000_000,
    ensures
        s@ == duration_text(secs, subsec_nanos),
        secs == 0 && subsec_nanos == 0 ==> s@ == "0s"@,
{
    duration_to_string(secs, subsec_nanos)
}

} // verus!
