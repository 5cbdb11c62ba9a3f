//! What the files of a process under `/proc` say, once they have been read.

use crate::utils::format::{decimal_text, u64_to_string};
use crate::utils::parse::{parse_unsigned, unsigned_up_to};
use crate::utils::split::{lines, lines_of, split_whitespace, texts, words_of};
use crate::utils::text::{
    cat3, chars_of, index_of, seek_from, starts_with, str_starts_with, text_of, trim, trimmed,
    without_trailing,
};
use vstd::prelude::*;

verus! {

/// The text with each NUL replaced by a space.
pub open spec fn nul_to_space(s: Seq<char>) -> Seq<char> {
    s.map_values(|c: char| if c == '\0' {
        ' '
    } else {
        c
    })
}

/// The first word of a command line whose arguments NULs separate, or the
/// empty text.
pub open spec fn first_argument(cmdline: Seq<char>) -> Seq<char> {
    let words = words_of(nul_to_space(cmdline));
    if words.len() > 0 {
        words[0]
    } else {
        Seq::empty()
    }
}

/// The text of what was read, where something was read.
pub open spec fn read_text(content: Option<&str>) -> Option<Seq<char>> {
    match content {
        Some(c) => Some(c@),
        None => None,
    }
}

/// The name of a process: its `comm` without the line feeds at its end, or
/// the first argument of its command line where `comm` is unreadable, or
/// `[pid N]` where that name is empty. `None` where neither file is readable.
pub open spec fn process_name_of(
    pid: u32,
    comm: Option<Seq<char>>,
    cmdline: Option<Seq<char>>,
) -> Option<Seq<char>> {
    let name = match comm {
        Some(c) => Some(without_trailing(c, '\n')),
        None => match cmdline {
            Some(c) => Some(first_argument(c)),
            None => None,
        },
    };
    match name {
        Some(n) => if n.len() == 0 {
            Some("[pid "@ + decimal_text(pid as nat) + "]"@)
        } else {
            Some(n)
        },
        None => None,
    }
}

/// The user id of the first `Uid:` line among the lines from `i` on that
/// has a second field: that field as a number, or 0 where it is none.
pub open spec fn uid_from(ls: Seq<Seq<char>>, i: int) -> u32
    decreases ls.len() - i,
{
    if 0 <= i < ls.len() {
        if starts_with(ls[i], "Uid:"@) && words_of(ls[i]).len() >= 2 {
            match unsigned_up_to(words_of(ls[i])[1], u32::MAX as nat) {
                Some(uid) => uid as u32,
                None => 0,
            }
        } else {
            uid_from(ls, i + 1)
        }
    } else {
        0
    }
}

/// The key and value of a line of a `status` file: what stands before and
/// after the first colon, each trimmed.
pub open spec fn status_entry(line: Seq<char>) -> Option<(Seq<char>, Seq<char>)> {
    match index_of(line, ':') {
        Some(colon) => Some(
            (trimmed(line.subrange(0, colon)), trimmed(line.subrange(colon + 1, line.len() as int))),
        ),
        None => None,
    }
}

/// The entries of the first `n` lines of a `status` file, in order.
pub open spec fn status_upto(ls: Seq<Seq<char>>, n: int) -> Seq<(Seq<char>, Seq<char>)>
    decreases n,
{
    if n <= 0 {
        Seq::empty()
    } else {
        match status_entry(ls[n - 1]) {
            Some(e) => status_upto(ls, n - 1).push(e),
            None => status_upto(ls, n - 1),
        }
    }
}

/// The text with each NUL replaced by a space.
fn replace_nuls(s: &str) -> (r: String)
    ensures
        r@ == nul_to_space(s@),
{
    let chars = chars_of(s);
    let mut out: Vec<char> = Vec::new();
    let mut i: usize = 0;
    while i < chars.len()
        invariant
            i <= chars.len(),
            out@ == nul_to_space(chars@).take(i as int),
        decreases chars.len() - i,
    {
        out.push(if chars[i] == '\0' {
            ' '
        } else {
            chars[i]
        });
        assert(out@ =~= nul_to_space(chars@).take(i + 1));
        i += 1;
    }
    assert(nul_to_space(chars@).take(chars.len() as int) =~= nul_to_space(chars@));
    assert(out@.subrange(0, out.len() as int) =~= out@);
    text_of(out.as_slice(), 0, out.len())
}

/// Get process name, where `comm` and `cmdline` are the contents of
/// `/proc/<pid>/comm` and `/proc/<pid>/cmdline`, `None` where unreadable.
pub fn process_name(pid: u32, comm: Option<&str>, cmdline: Option<&str>) -> (r: Option<String>)
    ensures
        crate::framework::report::opt_text(r) == process_name_of(
            pid,
            read_text(comm),
            read_text(cmdline),
        ),
{
    let name = match comm {
        Some(c) => crate::utils::text::trim_end_matches(c, '\n'),
        None => match cmdline {
            Some(c) => {
                let mut words = split_whitespace(replace_nuls(c).as_str());
                if words.len() > 0 {
                    let ghost all = texts(words@);
                    let first = words.swap_remove(0);
                    assert(first@ == all[0]);
                    first
                } else {
                    String::new()
                }
            },
            None => {
                return None;
            },
        },
    };
    if name.as_str().unicode_len() == 0 {
        Some(cat3("[pid ", u64_to_string(pid as u64).as_str(), "]"))
    } else {
        Some(name)
    }
}

/// Get process user (UID) from the content of `/proc/<pid>/status`.
pub fn process_user(status: &str) -> (r: u32)
    ensures
        r == uid_from(lines_of(status@), 0),
{
    let ls = lines(status);
    let mut i: usize = 0;
    while i < ls.len()
        invariant
            i <= ls.len(),
            texts(ls@) == lines_of(status@),
            uid_from(texts(ls@), 0) == uid_from(texts(ls@), i as int),
        decreases ls.len() - i,
    {
        let line = ls[i].as_str();
        assert(texts(ls@)[i as int] == line@);
        if str_starts_with(line, "Uid:") {
            let parts = split_whitespace(line);
            if parts.len() >= 2 {
                assert(texts(parts@)[1] == parts[1]@);
                let chars = chars_of(parts[1].as_str());
                return match parse_unsigned(chars.as_slice(), 0xffff_ffff) {
                    Some(uid) => uid as u32,
                    None => 0,
                };
            }
        }
        i += 1;
    }
    0
}

/// Parse key-value pairs from the content of `/proc/<pid>/status`, in the
/// order of the lines; of two entries with one key the later counts.
pub fn parse_status(status: &str) -> (r: Vec<(String, String)>)
    ensures
        r@.map_values(|e: (String, String)| (e.0@, e.1@)) == status_upto(
            lines_of(status@),
            lines_of(status@).len() as int,
        ),
{
    let ls = lines(status);
    let mut out: Vec<(String, String)> = Vec::new();
    let mut i: usize = 0;
    assert(out@.map_values(|e: (String, String)| (e.0@, e.1@)) =~= status_upto(texts(ls@), 0));
    while i < ls.len()
        invariant
            i <= ls.len(),
            texts(ls@) == lines_of(status@),
            out@.map_values(|e: (String, String)| (e.0@, e.1@)) == status_upto(
                texts(ls@),
                i as int,
            ),
        decreases ls.len() - i,
    {
        assert(texts(ls@)[i as int] == ls[i as int]@);
        let ghost before = out@.map_values(|e: (String, String)| (e.0@, e.1@));
        let chars = chars_of(ls[i].as_str());
        let colon = seek_from(chars.as_slice(), ':', 0);
        if colon < chars.len() {
            let key = trim(text_of(chars.as_slice(), 0, colon).as_str());
            let value = trim(text_of(chars.as_slice(), colon + 1, chars.len()).as_str());
            out.push((key, value));
            assert(out@.map_values(|e: (String, String)| (e.0@, e.1@)) =~= before.push(
                (key@, value@),
            ));
        }
        i += 1;
    }
    out
}

} // verus!
