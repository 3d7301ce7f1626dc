//! What an entity looks like. The core only carries the description; sizes
//! are `f32` values held as their bit patterns.

use vstd::prelude::*;
use crate::ui::frontend::RGBColor;

verus! {

pub type SpriteID = String;

#[derive(Debug, PartialEq)]
pub struct SpriteData {
    pub sprite_id: SpriteID,
    pub width_bits: u32,
    pub height_bits: u32,
    pub flip_h: bool,
    pub flip_v: bool,
}

#[derive(Clone, Copy, Debug, PartialEq, Eq, Structural)]
pub struct CircleData {
    pub radius_bits: u32,
    pub color: RGBColor,
}

#[derive(Clone, Copy, Debug, PartialEq, Eq, Structural)]
pub struct RectData {
    pub color: RGBColor,
    pub width_bits: u32,
    pub height_bits: u32,
}

#[derive(Clone, Copy, Debug, PartialEq, Eq, Structural)]
pub struct TriangleData {
    pub radius_bits: u32,
    pub color: RGBColor,
}

#[derive(Debug, PartialEq)]
pub enum GraphicsType {
    Sprite(SpriteData),
    Circle(CircleData),
    Rect(RectData),
    Triangle(TriangleData),
}

impl Clone for SpriteData {
    fn clone(&self) -> (copy: SpriteData)
        ensures
            copy == *self,
    {
        SpriteData {
            sprite_id: self.sprite_id.clone(),
            width_bits: self.width_bits,
            height_bits: self.height_bits,
            flip_h: self.flip_h,
            flip_v: self.flip_v,
        }
    }
}

impl Clone for GraphicsType {
    fn clone(&self) -> (copy: GraphicsType)
        ensures
            copy == *self,
    {
        match self {
            GraphicsType::Sprite(sprite) => GraphicsType::Sprite(sprite.clone()),
            GraphicsType::Circle(circle) => GraphicsType::Circle(*circle),
            GraphicsType::Rect(rect) => GraphicsType::Rect(*rect),
            GraphicsType::Triangle(triangle) => GraphicsType::Triangle(*triangle),
        }
    }
}

} // verus!
