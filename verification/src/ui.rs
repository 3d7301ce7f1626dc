//! User-interface descriptions: the element tree and the markup parser.
//!
//! A description is a text of lines. A line that begins with `<` describes
//! one element; every other line (comments begin with `#`) is passed over.

use vstd::prelude::*;
use vstd::string::StrSliceExecFns;
use crate::ui::frontend::errors::UiError;
use crate::ui::frontend::rough::content::content_of;
use crate::ui::frontend::rough::content::get_content;
use crate::ui::frontend::rough::element_name;
use crate::ui::frontend::rough::find_char;
use crate::ui::frontend::rough::opens_element;
use crate::ui::frontend::rough::params::button_params_of;
use crate::ui::frontend::rough::params::try_extract_params_from_line_for_button;
use crate::ui::frontend::rough::params::try_extract_params_from_line_for_text;
use crate::ui::frontend::rough::params::starts_with_open_angle_bracket;
use crate::ui::frontend::rough::params::text_params_of;
use crate::ui::frontend::rough::parse_element_type;
use crate::ui::frontend::rough::scan_to;
use crate::ui::frontend::rough::str_is;
use crate::ui::frontend::ButtonElement;
use crate::ui::frontend::Element;
use crate::ui::frontend::ElementModel;
use crate::ui::frontend::HyperFoilAST;
use crate::ui::frontend::TextElement;

pub mod frontend;

verus! {

/// The element that a line describes. The line must have an element name
/// and content; the name must be `button` or `text`; the parameters must
/// read; and a button must have a binding. The first of these that fails
/// gives the error.
pub open spec fn element_of(line: Seq<char>) -> Result<ElementModel, UiError> {
    if element_name(line).is_none() {
        Err(UiError::FailedToGetInnerParams)
    } else if content_of(line).is_none() {
        Err(UiError::MissingContent)
    } else if element_name(line).unwrap() == "button"@ {
        match button_params_of(line) {
            Err(e) => Err(e),
            Ok(params) => match params.binding {
                None => Err(UiError::MissingBinding),
                Some(binding) => Ok(
                    ElementModel::Button {
                        content: content_of(line).unwrap(),
                        styles: params.styles,
                        classes: params.classes,
                        binding,
                    },
                ),
            },
        }
    } else if element_name(line).unwrap() == "text"@ {
        match text_params_of(line) {
            Err(e) => Err(e),
            Ok(params) => Ok(
                ElementModel::Text {
                    content: content_of(line).unwrap(),
                    styles: params.styles,
                    classes: params.classes,
                },
            ),
        }
    } else {
        Err(UiError::UnknownElement)
    }
}

/// The elements of a description from position `from` on, behind those in
/// `acc`. Lines end at `\n`. The first line that begins with `<` and does
/// not read ends the reading with its error.
pub open spec fn elements_from(blob: Seq<char>, from: int, acc: Seq<ElementModel>) -> Result<
    Seq<ElementModel>,
    UiError,
>
    decreases blob.len() - from,
{
    let end = scan_to(blob, from, '\n');
    let line = blob.subrange(from, end);
    if from < 0 || from >= blob.len() || end < from {
        Ok(acc)
    } else if opens_element(line) {
        match element_of(line) {
            Err(e) => Err(e),
            Ok(element) => if end < blob.len() {
                elements_from(blob, end + 1, acc.push(element))
            } else {
                Ok(acc.push(element))
            },
        }
    } else if end < blob.len() {
        elements_from(blob, end + 1, acc)
    } else {
        Ok(acc)
    }
}

/// The elements that a description describes, in the order of its lines.
pub open spec fn ui_of(blob: Seq<char>) -> Result<Seq<ElementModel>, UiError> {
    elements_from(blob, 0, Seq::empty())
}

/// Reads the element that a line describes.
pub fn parse_rough_line(line: &str) -> (element: Result<Element, UiError>)
    ensures
        match element_of(line@) {
            Ok(expected) => element.is_ok() && element.unwrap()@ == expected,
            Err(e) => element.is_err() && element.unwrap_err() == e,
        },
{
    let element_type: &str = parse_element_type(line)?;
    let content = get_content(line)?;
    if str_is(element_type, "button") {
        let params = try_extract_params_from_line_for_button(line)?;
        match params.binding {
            Some(binding) => Ok(
                Element::Button(
                    ButtonElement {
                        content,
                        styles: params.styles,
                        classes: params.classes,
                        binding,
                    },
                ),
            ),
            None => Err(UiError::MissingBinding),
        }
    } else if str_is(element_type, "text") {
        let params = try_extract_params_from_line_for_text(line)?;
        Ok(Element::Text(TextElement { content, styles: params.styles, classes: params.classes }))
    } else {
        Err(UiError::UnknownElement)
    }
}

/// Reads a description.
pub fn parse_ui_blob(blob: &str) -> (ast: Result<HyperFoilAST, UiError>)
    ensures
        match ui_of(blob@) {
            Ok(expected) => ast.is_ok() && ast.unwrap()@ == expected,
            Err(e) => ast.is_err() && ast.unwrap_err() == e,
        },
{
    let len: usize = blob.unicode_len();
    let mut ast = HyperFoilAST { elements: Vec::new() };
    assert(ast@ =~= Seq::<ElementModel>::empty());
    let mut from: usize = 0;
    while from < len
        invariant_except_break
            elements_from(blob@, from as int, ast@) == ui_of(blob@),
        invariant
            from <= len,
            len == blob@.len(),
        ensures
            ui_of(blob@) == Ok::<Seq<ElementModel>, UiError>(ast@),
        decreases len - from,
    {
        let end: usize = find_char(blob, from, '\n');
        let line: &str = blob.substring_char(from, end);
        if starts_with_open_angle_bracket(line) {
            let ghost before = ast@;
            match parse_rough_line(line) {
                Ok(element) => {
                    ast.elements.push(element);
                    assert(ast@ =~= before.push(element@));
                },
                Err(e) => {
                    return Err(e);
                },
            }
        }
        if end >= len {
            break;
        }
        from = end + 1;
    }
    Ok(ast)
}

} // verus!
