//! Texture identities shared by the runtime atlas sampling and by the
//! atlas builder: tile order, tile indices, source file names, and the
//! per-tile V-flip rule.
use vstd::prelude::*;

verus! {

/// Texture ids used by both runtime atlas sampling and the atlas builder.
#[derive(Clone, Copy, Debug, PartialEq, Eq, Structural, Hash)]
pub enum TextureId {
    /// Left/right texture for grass-over-dirt blocks.
    GrassSide,
    /// Top texture for grass-over-dirt blocks.
    GrassTop,
    /// Dirt texture.
    Dirt,
    /// Sand texture.
    Sand,
}

/// Number of horizontal tiles in the atlas.
pub const ATLAS_TILES_X: u32 = 4;

/// Stable atlas tile order used by runtime UV lookup and atlas generation.
pub fn atlas_texture_order() -> (r: Vec<TextureId>)
    ensures
        r@ == seq![
            TextureId::GrassSide,
            TextureId::GrassTop,
            TextureId::Dirt,
            TextureId::Sand,
        ],
{
    let mut order: Vec<TextureId> = Vec::new();
    order.push(TextureId::GrassSide);
    order.push(TextureId::GrassTop);
    order.push(TextureId::Dirt);
    order.push(TextureId::Sand);
    proof {
        assert(order@ =~= seq![
            TextureId::GrassSide,
            TextureId::GrassTop,
            TextureId::Dirt,
            TextureId::Sand,
        ]);
    }
    order
}

/// Horizontal tile count of the current atlas.
pub fn atlas_tiles_x() -> (r: u32)
    ensures
        r == ATLAS_TILES_X,
{
    ATLAS_TILES_X
}

/// Tile index of one texture id in the horizontal atlas.
pub open spec fn spec_atlas_tile_index(texture: TextureId) -> u32 {
    match texture {
        TextureId::GrassSide => 0,
        TextureId::GrassTop => 1,
        TextureId::Dirt => 2,
        TextureId::Sand => 3,
    }
}

/// Return the tile index in the horizontal atlas for one texture id.
pub fn atlas_tile_index(texture: TextureId) -> (r: u32)
    ensures
        r == spec_atlas_tile_index(texture),
{
    match texture {
        TextureId::GrassSide => 0,
        TextureId::GrassTop => 1,
        TextureId::Dirt => 2,
        TextureId::Sand => 3,
    }
}

/// Whether one texture uses V-flipped UVs to match its source art.
pub open spec fn spec_needs_v_flip(texture: TextureId) -> bool {
    texture is GrassSide
}

/// Return whether this texture should use V-flipped UVs.
pub fn needs_v_flip(texture: TextureId) -> (r: bool)
    ensures
        r == spec_needs_v_flip(texture),
{
    matches!(texture, TextureId::GrassSide)
}

/// Source texture file name of one texture id.
pub open spec fn spec_source_base_filename(texture: TextureId) -> Seq<char> {
    match texture {
        TextureId::GrassSide => "default_dirt.png"@,
        TextureId::GrassTop => "default_grass.png"@,
        TextureId::Dirt => "default_dirt.png"@,
        TextureId::Sand => "default_sand.png"@,
    }
}

/// Return the source texture file name for one texture id.
pub fn source_base_filename(texture: TextureId) -> (r: &'static str)
    ensures
        r@ == spec_source_base_filename(texture),
{
    match texture {
        TextureId::GrassSide => "default_dirt.png",
        TextureId::GrassTop => "default_grass.png",
        TextureId::Dirt => "default_dirt.png",
        TextureId::Sand => "default_sand.png",
    }
}

/// Optional overlay texture file name of one texture id.
pub open spec fn spec_source_overlay_filename(texture: TextureId) -> Option<Seq<char>> {
    match texture {
        TextureId::GrassSide => Some("default_grass_side.png"@),
        TextureId::GrassTop => None,
        TextureId::Dirt => None,
        TextureId::Sand => None,
    }
}

/// Return the optional overlay texture file name for one texture id.
pub fn source_overlay_filename(texture: TextureId) -> (r: Option<&'static str>)
    ensures
        match r {
            Some(name) => spec_source_overlay_filename(texture) == Some(name@),
            None => spec_source_overlay_filename(texture) is None,
        },
{
    match texture {
        TextureId::GrassSide => Some("default_grass_side.png"),
        TextureId::GrassTop => None,
        TextureId::Dirt => None,
        TextureId::Sand => None,
    }
}

} // verus!
