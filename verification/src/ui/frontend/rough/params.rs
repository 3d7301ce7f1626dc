//! The parameters of an element: the `key="value"` pairs of its opening tag.

use vstd::prelude::*;
use vstd::string::StrSliceExecFns;
use vstd::string::StringExecFns;
use crate::ui::frontend::errors::UiError;
use crate::ui::frontend::rough::colors::color_of;
use crate::ui::frontend::rough::colors::hex_color;
use crate::ui::frontend::rough::find_char;
use crate::ui::frontend::rough::opens_element;
use crate::ui::frontend::rough::scan_to;
use crate::ui::frontend::rough::spacing::parse_spacing_units;
use crate::ui::frontend::rough::spacing::spacing_unit;
use crate::ui::frontend::rough::str_is;
use crate::ui::frontend::strings_view;
use crate::ui::frontend::ButtonStyleData;
use crate::ui::frontend::ButtonStyleModel;
use crate::ui::frontend::ElementAlignment;
use crate::ui::frontend::RGBColor;
use crate::ui::frontend::SpacingUnit;
use crate::ui::frontend::TextStyleData;
use crate::ui::frontend::TextStyleModel;

verus! {

/// What the opening tag of a text element says.
#[derive(Clone, Debug, PartialEq)]
pub struct RoughParamsText {
    pub classes: Vec<String>,
    pub binding: Option<String>,
    pub styles: TextStyleData,
}

/// What the opening tag of a button says.
#[derive(Clone, Debug, PartialEq)]
pub struct RoughParamsButton {
    pub classes: Vec<String>,
    pub binding: Option<String>,
    pub styles: ButtonStyleData,
}

/// Mathematical value of a [`RoughParamsText`].
pub struct TextParamsModel {
    pub classes: Seq<Seq<char>>,
    pub binding: Option<Seq<char>>,
    pub styles: TextStyleModel,
}

/// Mathematical value of a [`RoughParamsButton`].
pub struct ButtonParamsModel {
    pub classes: Seq<Seq<char>>,
    pub binding: Option<Seq<char>>,
    pub styles: ButtonStyleModel,
}

impl View for RoughParamsText {
    type V = TextParamsModel;

    open spec fn view(&self) -> TextParamsModel {
        TextParamsModel {
            classes: strings_view(self.classes@),
            binding: match self.binding {
                Some(name) => Some(name@),
                None => None,
            },
            styles: self.styles@,
        }
    }
}

impl View for RoughParamsButton {
    type V = ButtonParamsModel;

    open spec fn view(&self) -> ButtonParamsModel {
        ButtonParamsModel {
            classes: strings_view(self.classes@),
            binding: match self.binding {
                Some(name) => Some(name@),
                None => None,
            },
            styles: self.styles@,
        }
    }
}

#[derive(Clone, Copy, Debug, PartialEq, Eq, Structural)]
pub enum ParamKey {
    Classes,
    Binding,
    BackgroundColor,
    Font,
    FontSize,
    Color,
    MarginTop,
    MarginBottom,
    MarginLeft,
    MarginRight,
    Alignment,
    Width,
    Height,
}

/// The parameter that a key names.
pub open spec fn key_of(name: Seq<char>) -> Option<ParamKey> {
    if name == "bind"@ {
        Some(ParamKey::Binding)
    } else if name == "class"@ {
        Some(ParamKey::Classes)
    } else if name == "align"@ {
        Some(ParamKey::Alignment)
    } else if name == "color"@ {
        Some(ParamKey::Color)
    } else if name == "font_size"@ {
        Some(ParamKey::FontSize)
    } else if name == "ml"@ {
        Some(ParamKey::MarginLeft)
    } else if name == "mr"@ {
        Some(ParamKey::MarginRight)
    } else if name == "mt"@ {
        Some(ParamKey::MarginTop)
    } else if name == "mb"@ {
        Some(ParamKey::MarginBottom)
    } else if name == "bg_color"@ {
        Some(ParamKey::BackgroundColor)
    } else if name == "font"@ {
        Some(ParamKey::Font)
    } else if name == "width"@ || name == "w"@ {
        Some(ParamKey::Width)
    } else if name == "height"@ || name == "h"@ {
        Some(ParamKey::Height)
    } else {
        None
    }
}

/// The alignment that a value of `align` names.
pub open spec fn alignment_of(value: Seq<char>) -> Option<ElementAlignment> {
    if value == "top-left"@ {
        Some(ElementAlignment::TopLeft)
    } else if value == "top-right"@ {
        Some(ElementAlignment::TopRight)
    } else if value == "bottom-left"@ {
        Some(ElementAlignment::BottomLeft)
    } else if value == "bottom-right"@ {
        Some(ElementAlignment::BottomRight)
    } else if value == "center"@ {
        Some(ElementAlignment::CenterVerticalAndHorizontal)
    } else if value == "center-vertical"@ {
        Some(ElementAlignment::CenterVertical)
    } else if value == "center-horizontal"@ {
        Some(ElementAlignment::CenterHorizontal)
    } else if value == "center-horizontal+center-vertical"@ || value
        == "center-vertical+center-horizontal"@ {
        Some(ElementAlignment::CenterVerticalAndHorizontal)
    } else {
        None
    }
}

pub open spec fn is_space(c: char) -> bool {
    c == ' ' || c == '\t' || c == '\r' || c == '\n'
}

/// Position of the first character at or behind `from` that is no white
/// space; the length of `s` when there is none.
pub open spec fn skip_spaces(s: Seq<char>, from: int) -> int
    decreases s.len() - from,
{
    if from < 0 || from >= s.len() {
        s.len() as int
    } else if !is_space(s[from]) {
        from
    } else {
        skip_spaces(s, from + 1)
    }
}

/// Where a parameter lies in the text of the parameters.
pub struct ParamSpan {
    pub key: ParamKey,
    /// First character of the value.
    pub value_from: int,
    /// The quote that closes the value.
    pub value_to: int,
    /// Where the next parameter would begin.
    pub next: int,
}

/// The parameter that begins at `from`: a known key, `="`, a value of at
/// least one character, and `"`. White space behind it belongs to it.
pub open spec fn param_at(p: Seq<char>, from: int) -> Option<ParamSpan> {
    let eq = scan_to(p, from, '=');
    let quote = scan_to(p, eq + 2, '"');
    if from < 0 || eq + 1 >= p.len() || p[eq + 1] != '"' || quote == eq + 2 || quote >= p.len() {
        None
    } else {
        match key_of(p.subrange(from, eq)) {
            Some(key) => Some(
                ParamSpan {
                    key,
                    value_from: eq + 2,
                    value_to: quote,
                    next: skip_spaces(p, quote + 1),
                },
            ),
            None => None,
        }
    }
}

/// The pieces of `v` from `from` on that single spaces separate.
pub open spec fn split_from(v: Seq<char>, from: int) -> Seq<Seq<char>>
    decreases v.len() - from,
{
    let space = scan_to(v, from, ' ');
    if from < 0 || from > v.len() || space < from {
        Seq::empty()
    } else if space >= v.len() {
        seq![v.subrange(from, v.len() as int)]
    } else {
        seq![v.subrange(from, space)] + split_from(v, space + 1)
    }
}

/// The range of the parameters within a line: `<`, a name of at least one
/// character, a space, then the parameters, at least one character, up to
/// the first `>`.
pub open spec fn inner_params(line: Seq<char>) -> Option<(int, int)> {
    let name_end = scan_to(line, 1, ' ');
    let end = scan_to(line, name_end + 1, '>');
    if !opens_element(line) || name_end == 1 || name_end >= line.len() || end == name_end + 1 || end
        >= line.len() {
        None
    } else {
        Some((name_end + 1, end))
    }
}

/// What a text element has before any parameter is read.
pub open spec fn default_text_params() -> TextParamsModel {
    TextParamsModel {
        classes: Seq::empty(),
        binding: None,
        styles: TextStyleModel {
            font: Seq::empty(),
            font_size: SpacingUnit::Pixels(12),
            alignment: ElementAlignment::TopLeft,
            color: RGBColor { red: 255, green: 255, blue: 255 },
            margin_top: SpacingUnit::Pixels(0),
            margin_bottom: SpacingUnit::Pixels(0),
            margin_left: SpacingUnit::Pixels(0),
            margin_right: SpacingUnit::Pixels(0),
        },
    }
}

/// What a button has before any parameter is read.
pub open spec fn default_button_params() -> ButtonParamsModel {
    ButtonParamsModel {
        classes: Seq::empty(),
        binding: None,
        styles: ButtonStyleModel {
            font: Seq::empty(),
            font_size_px: SpacingUnit::Pixels(12),
            alignment: ElementAlignment::TopLeft,
            color: RGBColor { red: 255, green: 255, blue: 255 },
            background_color: RGBColor { red: 0, green: 0, blue: 0 },
            margin_top: SpacingUnit::Pixels(0),
            margin_bottom: SpacingUnit::Pixels(0),
            margin_left: SpacingUnit::Pixels(0),
            margin_right: SpacingUnit::Pixels(0),
            width: SpacingUnit::Pixels(100),
            height: SpacingUnit::Pixels(50),
        },
    }
}

/// What a value of a parameter is read as.
pub enum ParamValue {
    Text(Seq<char>),
    Length(SpacingUnit),
    Color(RGBColor),
    Alignment(ElementAlignment),
    Classes(Seq<Seq<char>>),
}

/// Reads the value of a parameter the way its key asks for.
pub open spec fn value_of(key: ParamKey, value: Seq<char>) -> Result<ParamValue, UiError> {
    match key {
        ParamKey::Font | ParamKey::Binding => Ok(ParamValue::Text(value)),
        ParamKey::Classes => Ok(ParamValue::Classes(split_from(value, 0))),
        ParamKey::Alignment => match alignment_of(value) {
            Some(alignment) => Ok(ParamValue::Alignment(alignment)),
            None => Err(UiError::UnknownAlignment),
        },
        ParamKey::Color | ParamKey::BackgroundColor => match color_of(value) {
            Some(color) => Ok(ParamValue::Color(color)),
            None => Err(UiError::HexColorNotValid),
        },
        _ => match spacing_unit(value) {
            Some(unit) => Ok(ParamValue::Length(unit)),
            None => Err(UiError::FailedToParseUnit),
        },
    }
}

/// A text element with one more parameter applied. Parameters that a text
/// element does not have (binding, background colour, width, height) are
/// passed over unread.
pub open spec fn text_with(acc: TextParamsModel, key: ParamKey, value: Seq<char>) -> Result<
    TextParamsModel,
    UiError,
> {
    match key {
        ParamKey::Binding | ParamKey::BackgroundColor | ParamKey::Width | ParamKey::Height => Ok(
            acc,
        ),
        _ => match value_of(key, value) {
            Err(e) => Err(e),
            Ok(read) => Ok(
                match (key, read) {
                    (ParamKey::Font, ParamValue::Text(font)) => TextParamsModel {
                        styles: TextStyleModel { font, ..acc.styles },
                        ..acc
                    },
                    (ParamKey::FontSize, ParamValue::Length(font_size)) => TextParamsModel {
                        styles: TextStyleModel { font_size, ..acc.styles },
                        ..acc
                    },
                    (ParamKey::MarginTop, ParamValue::Length(margin_top)) => TextParamsModel {
                        styles: TextStyleModel { margin_top, ..acc.styles },
                        ..acc
                    },
                    (ParamKey::MarginBottom, ParamValue::Length(margin_bottom)) => TextParamsModel {
                        styles: TextStyleModel { margin_bottom, ..acc.styles },
                        ..acc
                    },
                    (ParamKey::MarginLeft, ParamValue::Length(margin_left)) => TextParamsModel {
                        styles: TextStyleModel { margin_left, ..acc.styles },
                        ..acc
                    },
                    (ParamKey::MarginRight, ParamValue::Length(margin_right)) => TextParamsModel {
                        styles: TextStyleModel { margin_right, ..acc.styles },
                        ..acc
                    },
                    (ParamKey::Color, ParamValue::Color(color)) => TextParamsModel {
                        styles: TextStyleModel { color, ..acc.styles },
                        ..acc
                    },
                    (ParamKey::Alignment, ParamValue::Alignment(alignment)) => TextParamsModel {
                        styles: TextStyleModel { alignment, ..acc.styles },
                        ..acc
                    },
                    (ParamKey::Classes, ParamValue::Classes(classes)) => TextParamsModel {
                        classes: acc.classes + classes,
                        ..acc
                    },
                    _ => acc,
                },
            ),
        },
    }
}

/// A button with one more parameter applied.
pub open spec fn button_with(acc: ButtonParamsModel, key: ParamKey, value: Seq<char>) -> Result<
    ButtonParamsModel,
    UiError,
> {
    match value_of(key, value) {
        Err(e) => Err(e),
        Ok(read) => Ok(
            match (key, read) {
                (ParamKey::Font, ParamValue::Text(font)) => ButtonParamsModel {
                    styles: ButtonStyleModel { font, ..acc.styles },
                    ..acc
                },
                (ParamKey::Binding, ParamValue::Text(name)) => ButtonParamsModel {
                    binding: Some(name),
                    ..acc
                },
                (ParamKey::FontSize, ParamValue::Length(font_size_px)) => ButtonParamsModel {
                    styles: ButtonStyleModel { font_size_px, ..acc.styles },
                    ..acc
                },
                (ParamKey::MarginTop, ParamValue::Length(margin_top)) => ButtonParamsModel {
                    styles: ButtonStyleModel { margin_top, ..acc.styles },
                    ..acc
                },
                (ParamKey::MarginBottom, ParamValue::Length(margin_bottom)) => ButtonParamsModel {
                    styles: ButtonStyleModel { margin_bottom, ..acc.styles },
                    ..acc
                },
                (ParamKey::MarginLeft, ParamValue::Length(margin_left)) => ButtonParamsModel {
                    styles: ButtonStyleModel { margin_left, ..acc.styles },
                    ..acc
                },
                (ParamKey::MarginRight, ParamValue::Length(margin_right)) => ButtonParamsModel {
                    styles: ButtonStyleModel { margin_right, ..acc.styles },
                    ..acc
                },
                (ParamKey::Width, ParamValue::Length(width)) => ButtonParamsModel {
                    styles: ButtonStyleModel { width, ..acc.styles },
                    ..acc
                },
                (ParamKey::Height, ParamValue::Length(height)) => ButtonParamsModel {
                    styles: ButtonStyleModel { height, ..acc.styles },
                    ..acc
                },
                (ParamKey::Color, ParamValue::Color(color)) => ButtonParamsModel {
                    styles: ButtonStyleModel { color, ..acc.styles },
                    ..acc
                },
                (ParamKey::BackgroundColor, ParamValue::Color(background_color)) => ButtonParamsModel {
                    styles: ButtonStyleModel { background_color, ..acc.styles },
                    ..acc
                },
                (ParamKey::Alignment, ParamValue::Alignment(alignment)) => ButtonParamsModel {
                    styles: ButtonStyleModel { alignment, ..acc.styles },
                    ..acc
                },
                (ParamKey::Classes, ParamValue::Classes(classes)) => ButtonParamsModel {
                    classes: acc.classes + classes,
                    ..acc
                },
                _ => acc,
            },
        ),
    }
}

/// A text element with the parameters from `from` on applied, one after the
/// other, up to the first stretch of text that is no parameter. The first
/// value that cannot be read ends the reading with its error.
pub open spec fn text_fold(p: Seq<char>, from: int, acc: TextParamsModel) -> Result<
    TextParamsModel,
    UiError,
>
    decreases p.len() - from,
{
    match param_at(p, from) {
        None => Ok(acc),
        Some(span) => match text_with(acc, span.key, p.subrange(span.value_from, span.value_to)) {
            Err(e) => Err(e),
            Ok(next) => if from < span.next <= p.len() {
                text_fold(p, span.next, next)
            } else {
                Ok(next)
            },
        },
    }
}

/// A button with the parameters from `from` on applied; see [`text_fold`].
pub open spec fn button_fold(p: Seq<char>, from: int, acc: ButtonParamsModel) -> Result<
    ButtonParamsModel,
    UiError,
>
    decreases p.len() - from,
{
    match param_at(p, from) {
        None => Ok(acc),
        Some(span) => match button_with(acc, span.key, p.subrange(span.value_from, span.value_to)) {
            Err(e) => Err(e),
            Ok(next) => if from < span.next <= p.len() {
                button_fold(p, span.next, next)
            } else {
                Ok(next)
            },
        },
    }
}

/// What the opening tag of a text line says. The tag must have the shape
/// `<name parameters>`, and the parameters must begin with a parameter.
pub open spec fn text_params_of(line: Seq<char>) -> Result<TextParamsModel, UiError> {
    match inner_params(line) {
        None => Err(UiError::FailedToGetInnerParams),
        Some(range) => {
            let p = line.subrange(range.0, range.1);
            if param_at(p, 0).is_none() {
                Err(UiError::FailedToGetAllParams)
            } else {
                text_fold(p, 0, default_text_params())
            }
        },
    }
}

/// What the opening tag of a button line says; see [`text_params_of`].
pub open spec fn button_params_of(line: Seq<char>) -> Result<ButtonParamsModel, UiError> {
    match inner_params(line) {
        None => Err(UiError::FailedToGetInnerParams),
        Some(range) => {
            let p = line.subrange(range.0, range.1);
            if param_at(p, 0).is_none() {
                Err(UiError::FailedToGetAllParams)
            } else {
                button_fold(p, 0, default_button_params())
            }
        },
    }
}

pub fn starts_with_open_angle_bracket(input: &str) -> (opens: bool)
    ensures
        opens == opens_element(input@),
{
    input.unicode_len() > 0 && input.get_char(0) == '<'
}

fn parse_key(name: &str) -> (key: Option<ParamKey>)
    ensures
        key == key_of(name@),
{
    if str_is(name, "bind") {
        Some(ParamKey::Binding)
    } else if str_is(name, "class") {
        Some(ParamKey::Classes)
    } else if str_is(name, "align") {
        Some(ParamKey::Alignment)
    } else if str_is(name, "color") {
        Some(ParamKey::Color)
    } else if str_is(name, "font_size") {
        Some(ParamKey::FontSize)
    } else if str_is(name, "ml") {
        Some(ParamKey::MarginLeft)
    } else if str_is(name, "mr") {
        Some(ParamKey::MarginRight)
    } else if str_is(name, "mt") {
        Some(ParamKey::MarginTop)
    } else if str_is(name, "mb") {
        Some(ParamKey::MarginBottom)
    } else if str_is(name, "bg_color") {
        Some(ParamKey::BackgroundColor)
    } else if str_is(name, "font") {
        Some(ParamKey::Font)
    } else if str_is(name, "width") || str_is(name, "w") {
        Some(ParamKey::Width)
    } else if str_is(name, "height") || str_is(name, "h") {
        Some(ParamKey::Height)
    } else {
        None
    }
}

fn get_element_alignment(input: &str) -> (alignment: Result<ElementAlignment, UiError>)
    ensures
        alignment == match alignment_of(input@) {
            Some(expected) => Ok::<ElementAlignment, UiError>(expected),
            None => Err::<ElementAlignment, UiError>(UiError::UnknownAlignment),
        },
{
    if str_is(input, "top-left") {
        Ok(ElementAlignment::TopLeft)
    } else if str_is(input, "top-right") {
        Ok(ElementAlignment::TopRight)
    } else if str_is(input, "bottom-left") {
        Ok(ElementAlignment::BottomLeft)
    } else if str_is(input, "bottom-right") {
        Ok(ElementAlignment::BottomRight)
    } else if str_is(input, "center") {
        Ok(ElementAlignment::CenterVerticalAndHorizontal)
    } else if str_is(input, "center-vertical") {
        Ok(ElementAlignment::CenterVertical)
    } else if str_is(input, "center-horizontal") {
        Ok(ElementAlignment::CenterHorizontal)
    } else if str_is(input, "center-horizontal+center-vertical") || str_is(
        input,
        "center-vertical+center-horizontal",
    ) {
        Ok(ElementAlignment::CenterVerticalAndHorizontal)
    } else {
        Err(UiError::UnknownAlignment)
    }
}

fn skip_white(text: &str, from: usize) -> (at: usize)
    requires
        from <= text@.len(),
    ensures
        at == skip_spaces(text@, from as int),
        from <= at <= text@.len(),
{
    let len: usize = text.unicode_len();
    let mut i: usize = from;
    while i < len
        invariant
            from <= i <= len,
            len == text@.len(),
            skip_spaces(text@, from as int) == skip_spaces(text@, i as int),
        decreases len - i,
    {
        let c: char = text.get_char(i);
        if !(c == ' ' || c == '\t' || c == '\r' || c == '\n') {
            return i;
        }
        i = i + 1;
    }
    len
}

/// A parameter found in the text of the parameters.
struct FoundParam {
    key: ParamKey,
    value_from: usize,
    value_to: usize,
    next: usize,
}

/// Finds the parameter that begins at `from`.
fn get_params_inner_sys(p: &str, from: usize) -> (found: Option<FoundParam>)
    requires
        from <= p@.len(),
    ensures
        match param_at(p@, from as int) {
            Some(span) => found.is_some() && found.unwrap().key == span.key && found.unwrap().value_from
                == span.value_from && found.unwrap().value_to == span.value_to
                && found.unwrap().next == span.next && from < span.value_from < span.value_to
                < span.next <= p@.len(),
            None => found.is_none(),
        },
{
    let len: usize = p.unicode_len();
    let eq: usize = find_char(p, from, '=');
    if eq >= len || len - eq < 2 {
        return None;
    }
    if p.get_char(eq + 1) != '"' {
        return None;
    }
    let quote: usize = find_char(p, eq + 2, '"');
    if quote == eq + 2 || quote >= len {
        return None;
    }
    match parse_key(p.substring_char(from, eq)) {
        Some(key) => Some(
            FoundParam { key, value_from: eq + 2, value_to: quote, next: skip_white(p, quote + 1) },
        ),
        None => None,
    }
}

/// Appends the pieces of `value` that single spaces separate to `classes`.
fn push_classes(classes: &mut Vec<String>, value: &str)
    ensures
        strings_view(final(classes)@) == strings_view(old(classes)@) + split_from(value@, 0),
{
    let len: usize = value.unicode_len();
    let mut from: usize = 0;
    loop
        invariant_except_break
            strings_view(classes@) + split_from(value@, from as int) == strings_view(old(classes)@)
                + split_from(value@, 0),
        invariant
            from <= len,
            len == value@.len(),
        ensures
            strings_view(classes@) == strings_view(old(classes)@) + split_from(value@, 0),
        decreases len - from,
    {
        let space: usize = find_char(value, from, ' ');
        let ghost before = classes@;
        classes.push(String::from_str(value.substring_char(from, space)));
        proof {
            assert(strings_view(classes@) =~= strings_view(before).push(
                value@.subrange(from as int, space as int),
            ));
        }
        if space >= len {
            proof {
                assert(strings_view(classes@) =~= strings_view(before) + split_from(
                    value@,
                    from as int,
                ));
            }
            break;
        }
        proof {
            assert(strings_view(classes@) + split_from(value@, space + 1) =~= strings_view(before)
                + split_from(value@, from as int));
        }
        from = space + 1;
    }
}

/// The range of the parameters within a line.
fn get_inner_params(line: &str) -> (range: Option<(usize, usize)>)
    ensures
        match inner_params(line@) {
            Some(expected) => range.is_some() && range.unwrap().0 == expected.0 && range.unwrap().1
                == expected.1 && expected.0 < expected.1 < line@.len(),
            None => range.is_none(),
        },
{
    let len: usize = line.unicode_len();
    if len == 0 || line.get_char(0) != '<' {
        return None;
    }
    let name_end: usize = find_char(line, 1, ' ');
    if name_end == 1 || name_end >= len {
        return None;
    }
    let end: usize = find_char(line, name_end + 1, '>');
    if end == name_end + 1 || end >= len {
        return None;
    }
    Some((name_end + 1, end))
}

/// Applies one parameter to a text element.
fn apply_text_param(acc: &mut RoughParamsText, key: ParamKey, value: &str) -> (outcome: Result<
    (),
    UiError,
>)
    ensures
        match text_with(old(acc)@, key, value@) {
            Ok(next) => outcome.is_ok() && final(acc)@ == next,
            Err(e) => outcome == Err::<(), UiError>(e),
        },
{
    match key {
        ParamKey::Font => {
            acc.styles.font = String::from_str(value);
        },
        ParamKey::FontSize => {
            acc.styles.font_size = parse_spacing_units(value)?;
        },
        ParamKey::MarginTop => {
            acc.styles.margin_top = parse_spacing_units(value)?;
        },
        ParamKey::MarginBottom => {
            acc.styles.margin_bottom = parse_spacing_units(value)?;
        },
        ParamKey::MarginLeft => {
            acc.styles.margin_left = parse_spacing_units(value)?;
        },
        ParamKey::MarginRight => {
            acc.styles.margin_right = parse_spacing_units(value)?;
        },
        ParamKey::Color => {
            acc.styles.color = hex_color(value)?;
        },
        ParamKey::Alignment => {
            acc.styles.alignment = get_element_alignment(value)?;
        },
        ParamKey::Classes => {
            push_classes(&mut acc.classes, value);
        },
        _ => {},
    }
    Ok(())
}

/// Applies one parameter to a button.
fn apply_button_param(acc: &mut RoughParamsButton, key: ParamKey, value: &str) -> (outcome: Result<
    (),
    UiError,
>)
    ensures
        match button_with(old(acc)@, key, value@) {
            Ok(next) => outcome.is_ok() && final(acc)@ == next,
            Err(e) => outcome == Err::<(), UiError>(e),
        },
{
    match key {
        ParamKey::Font => {
            acc.styles.font = String::from_str(value);
        },
        ParamKey::Binding => {
            acc.binding = Some(String::from_str(value));
        },
        ParamKey::FontSize => {
            acc.styles.font_size_px = parse_spacing_units(value)?;
        },
        ParamKey::MarginTop => {
            acc.styles.margin_top = parse_spacing_units(value)?;
        },
        ParamKey::MarginBottom => {
            acc.styles.margin_bottom = parse_spacing_units(value)?;
        },
        ParamKey::MarginLeft => {
            acc.styles.margin_left = parse_spacing_units(value)?;
        },
        ParamKey::MarginRight => {
            acc.styles.margin_right = parse_spacing_units(value)?;
        },
        ParamKey::Width => {
            acc.styles.width = parse_spacing_units(value)?;
        },
        ParamKey::Height => {
            acc.styles.height = parse_spacing_units(value)?;
        },
        ParamKey::Color => {
            acc.styles.color = hex_color(value)?;
        },
        ParamKey::BackgroundColor => {
            acc.styles.background_color = hex_color(value)?;
        },
        ParamKey::Alignment => {
            acc.styles.alignment = get_element_alignment(value)?;
        },
        ParamKey::Classes => {
            push_classes(&mut acc.classes, value);
        },
    }
    Ok(())
}

/// Reads the parameters of a text element from its line; a line whose tag
/// does not read is refused with its error.
pub fn try_extract_params_from_line_for_text(line: &str) -> (params: Result<
    RoughParamsText,
    UiError,
>)
    ensures
        match text_params_of(line@) {
            Ok(expected) => params.is_ok() && params.unwrap()@ == expected,
            Err(e) => params.is_err() && params.unwrap_err() == e,
        },
{
    let range = match get_inner_params(line) {
        Some(range) => range,
        None => {
            return Err(UiError::FailedToGetInnerParams);
        },
    };
    let p: &str = line.substring_char(range.0, range.1);
    let len: usize = p.unicode_len();
    let mut next = match get_params_inner_sys(p, 0) {
        Some(found) => found,
        None => {
            return Err(UiError::FailedToGetAllParams);
        },
    };
    let mut final_params = RoughParamsText {
        binding: None,
        classes: Vec::new(),
        styles: TextStyleData {
            font: String::new(),
            font_size: SpacingUnit::Pixels(12),
            alignment: ElementAlignment::TopLeft,
            color: RGBColor { red: 255, green: 255, blue: 255 },
            margin_top: SpacingUnit::Pixels(0),
            margin_bottom: SpacingUnit::Pixels(0),
            margin_left: SpacingUnit::Pixels(0),
            margin_right: SpacingUnit::Pixels(0),
        },
    };
    assert(final_params@.classes =~= default_text_params().classes);
    assert(final_params@ == default_text_params());
    let mut from: usize = 0;
    loop
        invariant_except_break
            param_at(p@, from as int) matches Some(span) && span.key == next.key && span.value_from
                == next.value_from && span.value_to == next.value_to && span.next == next.next,
            from < next.value_from < next.value_to < next.next <= len,
        invariant
            from <= len,
            len == p@.len(),
            text_params_of(line@) == text_fold(p@, 0, default_text_params()),
            text_fold(p@, from as int, final_params@) == text_fold(p@, 0, default_text_params()),
        ensures
            text_fold(p@, 0, default_text_params()) == Ok::<TextParamsModel, UiError>(
                final_params@,
            ),
        decreases len - from,
    {
        let value: &str = p.substring_char(next.value_from, next.value_to);
        match apply_text_param(&mut final_params, next.key, value) {
            Ok(()) => {},
            Err(e) => {
                return Err(e);
            },
        }
        from = next.next;
        match get_params_inner_sys(p, from) {
            Some(found) => {
                next = found;
            },
            None => {
                break;
            },
        }
    }
    Ok(final_params)
}

/// Reads the parameters of a button from its line; a line whose tag does
/// not read is refused with its error.
pub fn try_extract_params_from_line_for_button(line: &str) -> (params: Result<
    RoughParamsButton,
    UiError,
>)
    ensures
        match button_params_of(line@) {
            Ok(expected) => params.is_ok() && params.unwrap()@ == expected,
            Err(e) => params.is_err() && params.unwrap_err() == e,
        },
{
    let range = match get_inner_params(line) {
        Some(range) => range,
        None => {
            return Err(UiError::FailedToGetInnerParams);
        },
    };
    let p: &str = line.substring_char(range.0, range.1);
    let len: usize = p.unicode_len();
    let mut next = match get_params_inner_sys(p, 0) {
        Some(found) => found,
        None => {
            return Err(UiError::FailedToGetAllParams);
        },
    };
    let mut final_params = RoughParamsButton {
        binding: None,
        classes: Vec::new(),
        styles: ButtonStyleData {
            font: String::new(),
            font_size_px: SpacingUnit::Pixels(12),
            alignment: ElementAlignment::TopLeft,
            color: RGBColor { red: 255, green: 255, blue: 255 },
            background_color: RGBColor { red: 0, green: 0, blue: 0 },
            margin_top: SpacingUnit::Pixels(0),
            margin_bottom: SpacingUnit::Pixels(0),
            margin_left: SpacingUnit::Pixels(0),
            margin_right: SpacingUnit::Pixels(0),
            width: SpacingUnit::Pixels(100),
            height: SpacingUnit::Pixels(50),
        },
    };
    assert(final_params@.classes =~= default_button_params().classes);
    assert(final_params@ == default_button_params());
    let mut from: usize = 0;
    loop
        invariant_except_break
            param_at(p@, from as int) matches Some(span) && span.key == next.key && span.value_from
                == next.value_from && span.value_to == next.value_to && span.next == next.next,
            from < next.value_from < next.value_to < next.next <= len,
        invariant
            from <= len,
            len == p@.len(),
            button_params_of(line@) == button_fold(p@, 0, default_button_params()),
            button_fold(p@, from as int, final_params@) == button_fold(
                p@,
                0,
                default_button_params(),
            ),
        ensures
            button_fold(p@, 0, default_button_params()) == Ok::<ButtonParamsModel, UiError>(
                final_params@,
            ),
        decreases len - from,
    {
        let value: &str = p.substring_char(next.value_from, next.value_to);
        match apply_button_param(&mut final_params, next.key, value) {
            Ok(()) => {},
            Err(e) => {
                return Err(e);
            },
        }
        from = next.next;
        match get_params_inner_sys(p, from) {
            Some(found) => {
                next = found;
            },
            None => {
                break;
            },
        }
    }
    Ok(final_params)
}

/// Reads the parameters of a text element from a line whose tag reads.
/// Whether it does, [`try_extract_params_from_line_for_text`] tells.
pub fn extract_params_from_line_for_text(line: &str) -> (params: RoughParamsText)
    requires
        text_params_of(line@).is_ok(),
    ensures
        params@ == text_params_of(line@).unwrap(),
{
    match try_extract_params_from_line_for_text(line) {
        Ok(params) => params,
        Err(_) => {
            proof {
                assert(false);
            }
            vstd::pervasive::unreached()
        },
    }
}

/// Reads the parameters of a button from a line whose tag reads. Whether it
/// does, [`try_extract_params_from_line_for_button`] tells.
pub fn extract_params_from_line_for_button(line: &str) -> (params: RoughParamsButton)
    requires
        button_params_of(line@).is_ok(),
    ensures
        params@ == button_params_of(line@).unwrap(),
{
    match try_extract_params_from_line_for_button(line) {
        Ok(params) => params,
        Err(_) => {
            proof {
                assert(false);
            }
            vstd::pervasive::unreached()
        },
    }
}

} // verus!
