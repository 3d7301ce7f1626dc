//! Sprite atlases: one image with many sprites, and a descriptor that says
//! where each sprite lies in it.

use vstd::prelude::*;
use crate::game_object::graphics::SpriteID;
use crate::tables::NameTable;

verus! {

#[derive(Clone, Copy, Debug, PartialEq, Eq, Structural)]
pub struct AtlasVector2 {
    pub x: u64,
    pub y: u64,
}

#[derive(Clone, Copy, Debug, PartialEq, Eq, Structural)]
pub struct AtlasSpriteSize {
    pub width: u64,
    pub height: u64,
}

#[derive(Clone, Copy, Debug, PartialEq, Eq, Structural)]
pub struct GenericAtlasData {
    pub width: u64,
    pub height: u64,
    pub sprite_count: u64,
}

#[derive(Clone, Copy, Debug, PartialEq, Eq, Structural)]
pub struct AtlasSpriteTrimInfo {
    pub x: u64,
    pub y: u64,
    pub width: u64,
    pub height: u64,
}

/// A sprite as the descriptor lists it.
pub struct AtlasSprite {
    pub name_id: SpriteID,
    pub origin: AtlasVector2,
    pub position: AtlasVector2,
    pub source_size: AtlasSpriteSize,
    pub padding: u64,
    pub trimmed: bool,
    pub trim_rec: AtlasSpriteTrimInfo,
}

/// A sprite as the atlas keeps it, under its name.
#[derive(Clone, Copy, Debug, PartialEq, Eq, Structural)]
pub struct ParsedAtlasSprite {
    pub origin: AtlasVector2,
    pub position: AtlasVector2,
    pub source_size: AtlasSpriteSize,
    pub padding: u64,
    pub trimmed: bool,
    pub trim_rec: AtlasSpriteTrimInfo,
}

pub struct AtlasDescriptor {
    pub atlas: GenericAtlasData,
    pub sprites: Vec<AtlasSprite>,
}

pub struct SpriteAtlas {
    width: u64,
    height: u64,
    atlas: Vec<u8>,
    sprites: NameTable,
    parsed: Vec<ParsedAtlasSprite>,
}

/// What the atlas keeps of a listed sprite.
pub open spec fn parsed_of(sprite: AtlasSprite) -> ParsedAtlasSprite {
    ParsedAtlasSprite {
        origin: sprite.origin,
        position: sprite.position,
        source_size: sprite.source_size,
        padding: sprite.padding,
        trimmed: sprite.trimmed,
        trim_rec: sprite.trim_rec,
    }
}

/// The sprite that a list gives for a name: the last one listed under it.
pub open spec fn sprite_named(sprites: Seq<AtlasSprite>, name: Seq<char>) -> Option<
    ParsedAtlasSprite,
>
    decreases sprites.len(),
{
    if sprites.len() == 0 {
        None
    } else if sprites.last().name_id@ == name {
        Some(parsed_of(sprites.last()))
    } else {
        sprite_named(sprites.drop_last(), name)
    }
}

impl SpriteAtlas {
    /// The sprite kept under `name`, if there is one.
    pub closed spec fn sprite(&self, name: Seq<char>) -> Option<ParsedAtlasSprite> {
        if self.sprites@.contains_key(name) && self.sprites@[name] < self.parsed@.len() {
            Some(self.parsed@[self.sprites@[name] as int])
        } else {
            None
        }
    }

    /// Width and height of the image.
    pub closed spec fn size(&self) -> (u64, u64) {
        (self.width, self.height)
    }

    /// The bytes of the image.
    pub closed spec fn image(&self) -> Seq<u8> {
        self.atlas@
    }

    pub fn width(&self) -> (width: u64)
        ensures
            width == self.size().0,
    {
        self.width
    }

    pub fn height(&self) -> (height: u64)
        ensures
            height == self.size().1,
    {
        self.height
    }

    pub fn atlas(&self) -> (bytes: &Vec<u8>)
        ensures
            bytes@ == self.image(),
    {
        &self.atlas
    }

    /// Builds the atlas from its descriptor and the bytes of its image.
    pub fn new(atlas: Vec<u8>, atlas_descriptor: AtlasDescriptor) -> (built: SpriteAtlas)
        ensures
            built.size() == (atlas_descriptor.atlas.width, atlas_descriptor.atlas.height),
            built.image() == atlas@,
            forall|name: Seq<char>| #[trigger]
                built.sprite(name) == sprite_named(atlas_descriptor.sprites@, name),
    {
        let mut sprites = NameTable::new();
        let mut parsed: Vec<ParsedAtlasSprite> = Vec::new();
        let count: usize = atlas_descriptor.sprites.len();
        let mut i: usize = 0;
        while i < count
            invariant
                i <= count,
                count == atlas_descriptor.sprites@.len(),
                parsed@.len() == i,
                forall|name: Seq<char>| #[trigger]
                    sprites@.contains_key(name) ==> sprites@[name] < i,
                forall|name: Seq<char>|
                    (if sprites@.contains_key(name) {
                        Some(parsed@[sprites@[name] as int])
                    } else {
                        None
                    }) == #[trigger] sprite_named(atlas_descriptor.sprites@.take(i as int), name),
            decreases count - i,
        {
            let sprite = &atlas_descriptor.sprites[i];
            let ghost names = sprites@;
            let ghost kept = parsed@;
            parsed.push(
                ParsedAtlasSprite {
                    origin: sprite.origin,
                    position: sprite.position,
                    source_size: sprite.source_size,
                    padding: sprite.padding,
                    trimmed: sprite.trimmed,
                    trim_rec: sprite.trim_rec,
                },
            );
            sprites.insert(sprite.name_id.clone(), i);
            proof {
                let shorter = atlas_descriptor.sprites@.take(i as int);
                let longer = atlas_descriptor.sprites@.take(i + 1);
                assert(longer.drop_last() =~= shorter);
                assert(longer.last() == atlas_descriptor.sprites@[i as int]);
                assert forall|name: Seq<char>|
                    (if sprites@.contains_key(name) {
                        Some(parsed@[sprites@[name] as int])
                    } else {
                        None
                    }) == #[trigger] sprite_named(longer, name) by {
                    if name == sprite.name_id@ {
                        assert(parsed@[i as int] == parsed_of(*sprite));
                    } else {
                        assert(sprite_named(longer, name) == sprite_named(shorter, name));
                        if names.contains_key(name) {
                            assert(names[name] < i);
                            assert(parsed@[names[name] as int] == kept[names[name] as int]);
                        }
                    }
                }
            }
            i = i + 1;
        }
        assert(atlas_descriptor.sprites@.take(count as int) =~= atlas_descriptor.sprites@);
        SpriteAtlas {
            width: atlas_descriptor.atlas.width,
            height: atlas_descriptor.atlas.height,
            atlas,
            sprites,
            parsed,
        }
    }

    /// The sprite kept under `id`, if there is one.
    pub fn lookup_sprite_data_from_descriptor(&self, id: &str) -> (sprite: Option<
        ParsedAtlasSprite,
    >)
        ensures
            sprite == self.sprite(id@),
    {
        match self.sprites.get(id) {
            Some(slot) => if slot < self.parsed.len() {
                Some(self.parsed[slot])
            } else {
                None
            },
            None => None,
        }
    }
}

} // verus!
