//! What can be wrong with a line of a user-interface description.

use vstd::prelude::*;

verus! {

pub const HEX_COLOR_NOT_VALID_ERROR: &'static str = "Failed to parse Hex color into RGB value.";

pub const HEX_COLOR_NOT_VALID_HELP: &'static str = "Make sure to include a # before the color value";

pub const FAILED_TO_GET_INNER_PARAMS_ERROR: &'static str = "Failed to parse inner params";

pub const FAILED_TO_GET_INNER_PARAMS_HELP: &'static str = "Uh... something has gone terribly wrong";

pub const FAILED_TO_GET_ALL_PARAMS_ERROR: &'static str = "Failed to parse all params from inner params";

pub const FAILED_TO_GET_ALL_PARAMS_HELP: &'static str = "Uh... something has gone terribly wrong";

pub const UNKNOWN_ALIGNMENT_ERROR: &'static str = "Failed to recognize alignment option";

pub const UNKNOWN_ALIGNMENT_HELP: &'static str = "Make sure it is a supported element alignment option";

pub const UNKNOWN_ELEMENT_ERROR: &'static str = "Unknown element";

pub const UNKNOWN_ELEMENT_HELP: &'static str = "Valid elements are <text>, <button>, and <container>";

pub const FAILED_TO_PARSE_UNIT_ERROR: &'static str = "Failed to parse unit";

pub const FAILED_TO_PARSE_UNIT_HELP: &'static str = "Valid units are: %h, %w, and px";

/// Why a line of a user-interface description was rejected.
#[derive(Clone, Copy, Debug, PartialEq, Eq, Structural)]
pub enum UiError {
    /// A colour is not `#` followed by six hexadecimal digits.
    HexColorNotValid,
    /// The line does not open with `<name `, parameters and `>`.
    FailedToGetInnerParams,
    /// The parameters do not start with a `key="value"` pair.
    FailedToGetAllParams,
    /// An `align` value is none of the known alignments.
    UnknownAlignment,
    /// The element is neither `text` nor `button`.
    UnknownElement,
    /// A length is not a number followed by `px`, `%w` or `%h`.
    FailedToParseUnit,
    /// The line has no text between `>` and `<`.
    MissingContent,
    /// A button has no `bind` parameter.
    MissingBinding,
}

impl UiError {
    /// The message shown for this error.
    pub fn message(&self) -> (text: &'static str)
        ensures
            text@ == match *self {
                UiError::HexColorNotValid => HEX_COLOR_NOT_VALID_ERROR@,
                UiError::FailedToGetInnerParams => FAILED_TO_GET_INNER_PARAMS_ERROR@,
                UiError::FailedToGetAllParams => FAILED_TO_GET_ALL_PARAMS_ERROR@,
                UiError::UnknownAlignment => UNKNOWN_ALIGNMENT_ERROR@,
                UiError::UnknownElement => UNKNOWN_ELEMENT_ERROR@,
                UiError::FailedToParseUnit => FAILED_TO_PARSE_UNIT_ERROR@,
                UiError::MissingContent => "Element has no content"@,
                UiError::MissingBinding => "Button has no binding"@,
            },
    {
        match self {
            UiError::HexColorNotValid => HEX_COLOR_NOT_VALID_ERROR,
            UiError::FailedToGetInnerParams => FAILED_TO_GET_INNER_PARAMS_ERROR,
            UiError::FailedToGetAllParams => FAILED_TO_GET_ALL_PARAMS_ERROR,
            UiError::UnknownAlignment => UNKNOWN_ALIGNMENT_ERROR,
            UiError::UnknownElement => UNKNOWN_ELEMENT_ERROR,
            UiError::FailedToParseUnit => FAILED_TO_PARSE_UNIT_ERROR,
            UiError::MissingContent => "Element has no content",
            UiError::MissingBinding => "Button has no binding",
        }
    }

    /// The hint shown with this error.
    pub fn help(&self) -> (text: &'static str)
        ensures
            text@ == match *self {
                UiError::HexColorNotValid => HEX_COLOR_NOT_VALID_HELP@,
                UiError::FailedToGetInnerParams => FAILED_TO_GET_INNER_PARAMS_HELP@,
                UiError::FailedToGetAllParams => FAILED_TO_GET_ALL_PARAMS_HELP@,
                UiError::UnknownAlignment => UNKNOWN_ALIGNMENT_HELP@,
                UiError::UnknownElement => UNKNOWN_ELEMENT_HELP@,
                UiError::FailedToParseUnit => FAILED_TO_PARSE_UNIT_HELP@,
                UiError::MissingContent => "Put the text between > and <"@,
                UiError::MissingBinding => "Add bind=\"name\" to the button"@,
            },
    {
        match self {
            UiError::HexColorNotValid => HEX_COLOR_NOT_VALID_HELP,
            UiError::FailedToGetInnerParams => FAILED_TO_GET_INNER_PARAMS_HELP,
            UiError::FailedToGetAllParams => FAILED_TO_GET_ALL_PARAMS_HELP,
            UiError::UnknownAlignment => UNKNOWN_ALIGNMENT_HELP,
            UiError::UnknownElement => UNKNOWN_ELEMENT_HELP,
            UiError::FailedToParseUnit => FAILED_TO_PARSE_UNIT_HELP,
            UiError::MissingContent => "Put the text between > and <",
            UiError::MissingBinding => "Add bind=\"name\" to the button",
        }
    }
}

} // verus!
