//! The content of an element: the text between the `>` that closes the
//! opening tag and the next `<`.

use vstd::prelude::*;
use vstd::string::StrSliceExecFns;
use vstd::string::StringExecFns;
use crate::ui::frontend::errors::UiError;
use crate::ui::frontend::rough::find_char;
use crate::ui::frontend::rough::scan_to;
use crate::ui::frontend::ContentModel;
use crate::ui::frontend::ValueOrVar;

verus! {

/// `s` with every `c` taken out.
pub open spec fn without(s: Seq<char>, c: char) -> Seq<char>
    decreases s.len(),
{
    if s.len() == 0 {
        s
    } else if s.last() == c {
        without(s.drop_last(), c)
    } else {
        without(s.drop_last(), c).push(s.last())
    }
}

/// The content of a line. There must be a `>`, at least one character
/// behind it, and a `<` behind those. Content without a `?` is fixed text.
/// Otherwise what stands before the first `?` is the prefix, and what
/// follows, with every `?` taken out, names the variable.
pub open spec fn content_of(line: Seq<char>) -> Option<ContentModel> {
    let open = scan_to(line, 0, '>');
    let close = scan_to(line, open + 1, '<');
    let mark = scan_to(line, open + 1, '?');
    if open >= line.len() || close == open + 1 || close >= line.len() {
        None
    } else if mark >= close {
        Some(ContentModel::Value(line.subrange(open + 1, close)))
    } else {
        Some(
            ContentModel::Variable {
                name: without(line.subrange(mark, close), '?'),
                prefix: line.subrange(open + 1, mark),
            },
        )
    }
}

/// Reads the content of a line.
pub fn get_content(input: &str) -> (content: Result<ValueOrVar, UiError>)
    ensures
        match content_of(input@) {
            Some(expected) => content.is_ok() && content.unwrap()@ == expected,
            None => content.is_err() && content.unwrap_err() == UiError::MissingContent,
        },
{
    let len: usize = input.unicode_len();
    let open: usize = find_char(input, 0, '>');
    if open >= len {
        return Err(UiError::MissingContent);
    }
    let close: usize = find_char(input, open + 1, '<');
    if close == open + 1 || close >= len {
        return Err(UiError::MissingContent);
    }
    let mark: usize = find_char(input, open + 1, '?');
    if mark >= close {
        return Ok(ValueOrVar::Value(String::from_str(input.substring_char(open + 1, close))));
    }
    let prefix: String = String::from_str(input.substring_char(open + 1, mark));
    let mut name: String = String::new();
    let mut i: usize = mark;
    while i < close
        invariant
            mark <= i <= close,
            close <= input@.len(),
            name@ == without(input@.subrange(mark as int, i as int), '?'),
        decreases close - i,
    {
        proof {
            let longer = input@.subrange(mark as int, i + 1);
            assert(longer.drop_last() =~= input@.subrange(mark as int, i as int));
            assert(longer.last() == input@[i as int]);
        }
        if input.get_char(i) != '?' {
            let piece: &str = input.substring_char(i, i + 1);
            assert(piece@ =~= seq![input@[i as int]]);
            name.append(piece);
            assert(name@ =~= without(input@.subrange(mark as int, i as int), '?').push(
                input@[i as int],
            ));
        }
        i = i + 1;
    }
    Ok(ValueOrVar::Variable((name, prefix)))
}

} // verus!
