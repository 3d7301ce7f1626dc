//! The element tree a user-interface description parses into.

use vstd::prelude::*;

pub mod errors;
pub mod rough;

verus! {

/// Text of an element: either fixed, or the current value of a variable of
/// the scene's data map, shown behind a fixed prefix.
#[derive(Debug, PartialEq)]
pub enum ValueOrVar {
    Value(String),
    /// Name of the variable, then the prefix.
    Variable((String, String)),
}

#[derive(Clone, Copy, Debug, PartialEq, Eq, Structural)]
pub enum ElementAlignment {
    TopLeft,
    TopRight,
    BottomLeft,
    BottomRight,
    CenterVertical,
    CenterHorizontal,
    CenterVerticalAndHorizontal,
}

#[derive(Clone, Copy, Debug, PartialEq, Eq, Structural)]
pub struct RGBColor {
    pub red: u8,
    pub green: u8,
    pub blue: u8,
}

#[derive(Clone, Copy, Debug, PartialEq, Eq, Structural)]
pub enum SpacingUnit {
    Pixels(i32),
    PercentWidth(i32),
    PercentHeight(i32),
}

#[derive(Debug, PartialEq)]
pub struct TextStyleData {
    pub font: String,
    pub font_size: SpacingUnit,
    pub alignment: ElementAlignment,
    pub color: RGBColor,
    pub margin_top: SpacingUnit,
    pub margin_bottom: SpacingUnit,
    pub margin_left: SpacingUnit,
    pub margin_right: SpacingUnit,
}

#[derive(Debug, PartialEq)]
pub struct ButtonStyleData {
    pub font: String,
    pub font_size_px: SpacingUnit,
    pub alignment: ElementAlignment,
    pub color: RGBColor,
    pub background_color: RGBColor,
    pub margin_top: SpacingUnit,
    pub margin_bottom: SpacingUnit,
    pub margin_left: SpacingUnit,
    pub margin_right: SpacingUnit,
    pub width: SpacingUnit,
    pub height: SpacingUnit,
}

#[derive(Debug, PartialEq)]
pub struct TextElement {
    pub content: ValueOrVar,
    pub styles: TextStyleData,
    pub classes: Vec<String>,
}

#[derive(Debug, PartialEq)]
pub struct ButtonElement {
    pub content: ValueOrVar,
    pub styles: ButtonStyleData,
    pub classes: Vec<String>,
    pub binding: String,
}

#[derive(Debug, PartialEq)]
pub enum Element {
    Text(TextElement),
    Button(ButtonElement),
}

#[derive(Debug, PartialEq)]
pub struct HyperFoilAST {
    pub elements: Vec<Element>,
}

/// Mathematical value of a [`ValueOrVar`].
pub enum ContentModel {
    Value(Seq<char>),
    Variable { name: Seq<char>, prefix: Seq<char> },
}

/// Mathematical value of a [`TextStyleData`].
pub struct TextStyleModel {
    pub font: Seq<char>,
    pub font_size: SpacingUnit,
    pub alignment: ElementAlignment,
    pub color: RGBColor,
    pub margin_top: SpacingUnit,
    pub margin_bottom: SpacingUnit,
    pub margin_left: SpacingUnit,
    pub margin_right: SpacingUnit,
}

/// Mathematical value of a [`ButtonStyleData`].
pub struct ButtonStyleModel {
    pub font: Seq<char>,
    pub font_size_px: SpacingUnit,
    pub alignment: ElementAlignment,
    pub color: RGBColor,
    pub background_color: RGBColor,
    pub margin_top: SpacingUnit,
    pub margin_bottom: SpacingUnit,
    pub margin_left: SpacingUnit,
    pub margin_right: SpacingUnit,
    pub width: SpacingUnit,
    pub height: SpacingUnit,
}

/// Mathematical value of an [`Element`].
#[allow(inconsistent_fields)]
pub enum ElementModel {
    Text { content: ContentModel, styles: TextStyleModel, classes: Seq<Seq<char>> },
    Button {
        content: ContentModel,
        styles: ButtonStyleModel,
        classes: Seq<Seq<char>>,
        binding: Seq<char>,
    },
}

/// The character sequences of a list of strings.
pub open spec fn strings_view(strings: Seq<String>) -> Seq<Seq<char>> {
    Seq::new(strings.len(), |i: int| strings[i]@)
}

impl View for ValueOrVar {
    type V = ContentModel;

    open spec fn view(&self) -> ContentModel {
        match *self {
            ValueOrVar::Value(text) => ContentModel::Value(text@),
            ValueOrVar::Variable(pair) => ContentModel::Variable {
                name: pair.0@,
                prefix: pair.1@,
            },
        }
    }
}

impl Clone for ValueOrVar {
    fn clone(&self) -> (copy: ValueOrVar)
        ensures
            copy@ == self@,
    {
        match self {
            ValueOrVar::Value(text) => ValueOrVar::Value(text.clone()),
            ValueOrVar::Variable(pair) => ValueOrVar::Variable((pair.0.clone(), pair.1.clone())),
        }
    }
}

/// A copy of a list of strings.
pub fn clone_strings(strings: &Vec<String>) -> (copy: Vec<String>)
    ensures
        strings_view(copy@) == strings_view(strings@),
{
    let mut copy: Vec<String> = Vec::new();
    let mut i: usize = 0;
    while i < strings.len()
        invariant
            i <= strings@.len(),
            copy@.len() == i,
            forall|k: int| 0 <= k < i ==> (#[trigger] copy@[k])@ == strings@[k]@,
        decreases strings@.len() - i,
    {
        copy.push(strings[i].clone());
        i = i + 1;
    }
    assert(strings_view(copy@) =~= strings_view(strings@));
    copy
}

impl Clone for TextStyleData {
    fn clone(&self) -> (copy: TextStyleData)
        ensures
            copy@ == self@,
    {
        TextStyleData {
            font: self.font.clone(),
            font_size: self.font_size,
            alignment: self.alignment,
            color: self.color,
            margin_top: self.margin_top,
            margin_bottom: self.margin_bottom,
            margin_left: self.margin_left,
            margin_right: self.margin_right,
        }
    }
}

impl Clone for ButtonStyleData {
    fn clone(&self) -> (copy: ButtonStyleData)
        ensures
            copy@ == self@,
    {
        ButtonStyleData {
            font: self.font.clone(),
            font_size_px: self.font_size_px,
            alignment: self.alignment,
            color: self.color,
            background_color: self.background_color,
            margin_top: self.margin_top,
            margin_bottom: self.margin_bottom,
            margin_left: self.margin_left,
            margin_right: self.margin_right,
            width: self.width,
            height: self.height,
        }
    }
}

impl Clone for TextElement {
    fn clone(&self) -> (copy: TextElement)
        ensures
            Element::Text(copy)@ == Element::Text(*self)@,
    {
        TextElement {
            content: self.content.clone(),
            styles: self.styles.clone(),
            classes: clone_strings(&self.classes),
        }
    }
}

impl Clone for ButtonElement {
    fn clone(&self) -> (copy: ButtonElement)
        ensures
            Element::Button(copy)@ == Element::Button(*self)@,
    {
        ButtonElement {
            content: self.content.clone(),
            styles: self.styles.clone(),
            classes: clone_strings(&self.classes),
            binding: self.binding.clone(),
        }
    }
}

impl Clone for Element {
    fn clone(&self) -> (copy: Element)
        ensures
            copy@ == self@,
    {
        match self {
            Element::Text(text) => Element::Text(text.clone()),
            Element::Button(button) => Element::Button(button.clone()),
        }
    }
}

impl Clone for HyperFoilAST {
    fn clone(&self) -> (copy: HyperFoilAST)
        ensures
            copy@ == self@,
    {
        let mut elements: Vec<Element> = Vec::new();
        let mut i: usize = 0;
        while i < self.elements.len()
            invariant
                i <= self.elements@.len(),
                elements@.len() == i,
                forall|k: int| 0 <= k < i ==> (#[trigger] elements@[k])@ == self.elements@[k]@,
            decreases self.elements@.len() - i,
        {
            elements.push(self.elements[i].clone());
            i = i + 1;
        }
        let copy = HyperFoilAST { elements };
        assert(copy@ =~= self@);
        copy
    }
}

impl View for TextStyleData {
    type V = TextStyleModel;

    open spec fn view(&self) -> TextStyleModel {
        TextStyleModel {
            font: self.font@,
            font_size: self.font_size,
            alignment: self.alignment,
            color: self.color,
            margin_top: self.margin_top,
            margin_bottom: self.margin_bottom,
            margin_left: self.margin_left,
            margin_right: self.margin_right,
        }
    }
}

impl View for ButtonStyleData {
    type V = ButtonStyleModel;

    open spec fn view(&self) -> ButtonStyleModel {
        ButtonStyleModel {
            font: self.font@,
            font_size_px: self.font_size_px,
            alignment: self.alignment,
            color: self.color,
            background_color: self.background_color,
            margin_top: self.margin_top,
            margin_bottom: self.margin_bottom,
            margin_left: self.margin_left,
            margin_right: self.margin_right,
            width: self.width,
            height: self.height,
        }
    }
}

impl View for Element {
    type V = ElementModel;

    open spec fn view(&self) -> ElementModel {
        match *self {
            Element::Text(text) => ElementModel::Text {
                content: text.content@,
                styles: text.styles@,
                classes: strings_view(text.classes@),
            },
            Element::Button(button) => ElementModel::Button {
                content: button.content@,
                styles: button.styles@,
                classes: strings_view(button.classes@),
                binding: button.binding@,
            },
        }
    }
}

impl View for HyperFoilAST {
    type V = Seq<ElementModel>;

    open spec fn view(&self) -> Seq<ElementModel> {
        Seq::new(self.elements@.len(), |i: int| self.elements@[i]@)
    }
}

} // verus!
