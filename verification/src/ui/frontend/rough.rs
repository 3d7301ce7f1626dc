//! The line-oriented markup that user interfaces are written in.
//!
//! A line describes one element: `<name key="value" ...>content</name>`.
//! This module holds what the parsers of the parts of a line share: scanning
//! for a character, comparing a stretch of text with a word, and reading the
//! element name.

use vstd::prelude::*;
use vstd::string::StrSliceExecFns;
use crate::ui::frontend::errors::UiError;

pub mod colors;
pub mod content;
pub mod params;
pub mod spacing;

verus! {

/// Position of the first `stop` in `s` at or behind `from`; the length of
/// `s` when there is none.
pub open spec fn scan_to(s: Seq<char>, from: int, stop: char) -> int
    decreases s.len() - from,
{
    if from < 0 || from >= s.len() {
        s.len() as int
    } else if s[from] == stop {
        from
    } else {
        scan_to(s, from + 1, stop)
    }
}

/// Executable `scan_to`.
pub fn find_char(text: &str, from: usize, stop: char) -> (at: usize)
    requires
        from <= text@.len(),
    ensures
        at == scan_to(text@, from as int, stop),
        from <= at <= text@.len(),
{
    let len: usize = text.unicode_len();
    let mut i: usize = from;
    while i < len
        invariant
            from <= i <= len,
            len == text@.len(),
            scan_to(text@, from as int, stop) == scan_to(text@, i as int, stop),
        decreases len - i,
    {
        if text.get_char(i) == stop {
            return i;
        }
        i = i + 1;
    }
    len
}

/// Whether `text` reads `word`.
pub fn str_is(text: &str, word: &str) -> (same: bool)
    ensures
        same == (text@ == word@),
{
    let len: usize = text.unicode_len();
    if word.unicode_len() != len {
        return false;
    }
    let mut i: usize = 0;
    while i < len
        invariant
            i <= len,
            len == text@.len(),
            len == word@.len(),
            forall|k: int| 0 <= k < i ==> text@[k] == word@[k],
        decreases len - i,
    {
        if text.get_char(i) != word.get_char(i) {
            return false;
        }
        i = i + 1;
    }
    assert(text@ =~= word@);
    true
}

/// Position of the first line break (`\n` or `\r`) at or behind `from`; the
/// length of `s` when there is none.
pub open spec fn scan_to_line_end(s: Seq<char>, from: int) -> int
    decreases s.len() - from,
{
    if from < 0 || from >= s.len() {
        s.len() as int
    } else if s[from] == '\n' || s[from] == '\r' {
        from
    } else {
        scan_to_line_end(s, from + 1)
    }
}

/// What follows a comment: the text behind `#` and the characters up to the
/// next line break, of which there must be at least one.
pub open spec fn after_comment(s: Seq<char>) -> Option<Seq<char>> {
    let end = scan_to_line_end(s, 1);
    if s.len() < 2 || s[0] != '#' || end == 1 {
        None
    } else {
        Some(s.subrange(end, s.len() as int))
    }
}

/// Strips a comment from the front of `i` and returns what follows it.
pub fn comment_stripper(i: &str) -> (rest: Option<&str>)
    ensures
        match after_comment(i@) {
            Some(expected) => rest.is_some() && rest.unwrap()@ == expected,
            None => rest.is_none(),
        },
{
    let len: usize = i.unicode_len();
    if len < 2 || i.get_char(0) != '#' {
        return None;
    }
    let mut end: usize = 1;
    while end < len
        invariant
            1 <= end <= len,
            len == i@.len(),
            scan_to_line_end(i@, 1) == scan_to_line_end(i@, end as int),
        ensures
            end == scan_to_line_end(i@, 1),
        decreases len - end,
    {
        let c: char = i.get_char(end);
        if c == '\n' || c == '\r' {
            break;
        }
        end = end + 1;
    }
    if end == 1 {
        None
    } else {
        Some(i.substring_char(end, len))
    }
}

/// Whether a line begins with `<`.
pub open spec fn opens_element(line: Seq<char>) -> bool {
    line.len() > 0 && line[0] == '<'
}

/// The element name of a line: what stands between the opening `<` and the
/// first space. There must be at least one character, and the space.
pub open spec fn element_name(line: Seq<char>) -> Option<Seq<char>> {
    if !opens_element(line) {
        None
    } else {
        let end = scan_to(line, 1, ' ');
        if end == 1 || end == line.len() {
            None
        } else {
            Some(line.subrange(1, end))
        }
    }
}

/// Reads the element name of a line.
pub fn parse_element_type(input: &str) -> (name: Result<&str, UiError>)
    ensures
        match element_name(input@) {
            Some(expected) => name.is_ok() && name.unwrap()@ == expected,
            None => name == Err::<&str, UiError>(UiError::FailedToGetInnerParams),
        },
{
    let len: usize = input.unicode_len();
    if len == 0 || input.get_char(0) != '<' {
        return Err(UiError::FailedToGetInnerParams);
    }
    let end: usize = find_char(input, 1, ' ');
    if end == 1 || end == len {
        return Err(UiError::FailedToGetInnerParams);
    }
    Ok(input.substring_char(1, end))
}

} // verus!
