//! What is read from files, once it has been read.

use crate::utils::split::{first_line_of, lines};
use vstd::prelude::*;

verus! {

/// What reading a file that must be there gave: its content, or why it could
/// not be read.
#[derive(Debug, Clone)]
pub enum FileRead {
    Content(String),
    Failed(String),
}

/// First line of a file's content (e.g. of a /sys file), where `content` is
/// what was read, or `None` if the file does not exist.
pub fn read_first_line(content: Option<&str>) -> (r: Option<String>)
    ensures
        match content {
            Some(text) => match first_line_of(text@) {
                Some(line) => r matches Some(got) && got@ == line,
                None => r is None,
            },
            None => r is None,
        },
{
    match content {
        Some(text) => {
            let mut all = lines(text);
            if all.len() > 0 {
                Some(all.swap_remove(0))
            } else {
                None
            }
        },
        None => None,
    }
}

/// The first line of what was read from a file, if the file was there and
/// not empty.
pub open spec fn first_line_text(content: Option<String>) -> Option<Seq<char>> {
    match content {
        Some(text) => first_line_of(text@),
        None => None,
    }
}

/// The first line of what was read from a file.
pub fn first_line(content: &Option<String>) -> (r: Option<String>)
    ensures
        crate::framework::report::opt_text(r) == first_line_text(*content),
{
    match content {
        Some(text) => read_first_line(Some(text.as_str())),
        None => None,
    }
}

} // verus!
