//! Static per-kind block rules: solidity, gravity stability,
//! interactability, allowed front orientations, and the face-class to
//! texture mapping used by mesh generation.
use vstd::prelude::*;

use crate::block::{Block, BlockKind, Facing};
use crate::coords::Vec3i;
use crate::material_catalog::TextureId;

verus! {

/// Face classification used by block face-material lookup.
#[derive(Clone, Copy, Debug, PartialEq, Eq, Structural)]
pub enum FaceKind {
    /// Top (+Y) face.
    Top,
    /// Bottom (-Y) face.
    Bottom,
    /// Front (+Z) face.
    Front,
    /// Back (-Z) face.
    Back,
    /// Left/right (X axis) faces.
    SideLeftRight,
}

/// Per-face texture assignment for one block definition.
#[derive(Clone, Copy, Debug, PartialEq, Eq, Structural)]
pub struct FaceMaterials {
    /// Texture id used on the top face.
    pub top: TextureId,
    /// Texture id used on the bottom face.
    pub bottom: TextureId,
    /// Texture id used on the front (+Z) face.
    pub front: TextureId,
    /// Texture id used on the back (-Z) face.
    pub back: TextureId,
    /// Texture id used on the left/right (X axis) faces.
    pub side_left_right: TextureId,
}

impl FaceMaterials {
    /// Texture id of one face class.
    pub open spec fn spec_texture_for_face(self, face: FaceKind) -> TextureId {
        match face {
            FaceKind::Top => self.top,
            FaceKind::Bottom => self.bottom,
            FaceKind::Front => self.front,
            FaceKind::Back => self.back,
            FaceKind::SideLeftRight => self.side_left_right,
        }
    }

    /// Return the texture id for one face class.
    pub fn texture_for_face(&self, face: FaceKind) -> (r: TextureId)
        ensures
            r == self.spec_texture_for_face(face),
    {
        match face {
            FaceKind::Top => self.top,
            FaceKind::Bottom => self.bottom,
            FaceKind::Front => self.front,
            FaceKind::Back => self.back,
            FaceKind::SideLeftRight => self.side_left_right,
        }
    }
}

/// Per-kind block definition payload.
#[derive(Clone, Copy, Debug, PartialEq, Eq, Structural)]
pub struct BlockDef {
    /// Whether this block occupies volume and blocks movement.
    pub solid: bool,
    /// Whether this block stays in place when unsupported.
    pub stable: bool,
    /// Whether interaction systems can directly operate on this block.
    pub interactable: bool,
    /// Whether this block can store vertical front directions (+Y/-Y).
    pub allow_vertical_front: bool,
    /// Face material mapping for this block.
    pub materials: FaceMaterials,
}

/// Block definition of one block kind.
pub open spec fn spec_block_def(kind: BlockKind) -> BlockDef {
    match kind {
        BlockKind::Air => BlockDef {
            solid: false,
            stable: false,
            interactable: false,
            allow_vertical_front: false,
            materials: FaceMaterials {
                top: TextureId::Dirt,
                bottom: TextureId::Dirt,
                front: TextureId::Dirt,
                back: TextureId::Dirt,
                side_left_right: TextureId::Dirt,
            },
        },
        BlockKind::Dirt => BlockDef {
            solid: true,
            stable: true,
            interactable: true,
            allow_vertical_front: true,
            materials: FaceMaterials {
                top: TextureId::Dirt,
                bottom: TextureId::Dirt,
                front: TextureId::Dirt,
                back: TextureId::Dirt,
                side_left_right: TextureId::Dirt,
            },
        },
        BlockKind::DirtWithGrass => BlockDef {
            solid: true,
            stable: true,
            interactable: true,
            allow_vertical_front: false,
            materials: FaceMaterials {
                top: TextureId::GrassTop,
                bottom: TextureId::Dirt,
                front: TextureId::GrassSide,
                back: TextureId::GrassSide,
                side_left_right: TextureId::GrassSide,
            },
        },
        BlockKind::Sand => BlockDef {
            solid: true,
            stable: false,
            interactable: true,
            allow_vertical_front: true,
            materials: FaceMaterials {
                top: TextureId::Sand,
                bottom: TextureId::Sand,
                front: TextureId::Sand,
                back: TextureId::Sand,
                side_left_right: TextureId::Sand,
            },
        },
    }
}

/// Return the block definition for one block kind.
pub fn def_for_block_kind(kind: BlockKind) -> (r: BlockDef)
    ensures
        r == spec_block_def(kind),
{
    match kind {
        BlockKind::Air => BlockDef {
            solid: false,
            stable: false,
            interactable: false,
            allow_vertical_front: false,
            materials: FaceMaterials {
                top: TextureId::Dirt,
                bottom: TextureId::Dirt,
                front: TextureId::Dirt,
                back: TextureId::Dirt,
                side_left_right: TextureId::Dirt,
            },
        },
        BlockKind::Dirt => BlockDef {
            solid: true,
            stable: true,
            interactable: true,
            allow_vertical_front: true,
            materials: FaceMaterials {
                top: TextureId::Dirt,
                bottom: TextureId::Dirt,
                front: TextureId::Dirt,
                back: TextureId::Dirt,
                side_left_right: TextureId::Dirt,
            },
        },
        BlockKind::DirtWithGrass => BlockDef {
            solid: true,
            stable: true,
            interactable: true,
            allow_vertical_front: false,
            materials: FaceMaterials {
                top: TextureId::GrassTop,
                bottom: TextureId::Dirt,
                front: TextureId::GrassSide,
                back: TextureId::GrassSide,
                side_left_right: TextureId::GrassSide,
            },
        },
        BlockKind::Sand => BlockDef {
            solid: true,
            stable: false,
            interactable: true,
            allow_vertical_front: true,
            materials: FaceMaterials {
                top: TextureId::Sand,
                bottom: TextureId::Sand,
                front: TextureId::Sand,
                back: TextureId::Sand,
                side_left_right: TextureId::Sand,
            },
        },
    }
}

/// Face class of one world normal, given a block-local front orientation:
/// the face whose normal matches the front is `Front`, its negation is
/// `Back`, and otherwise the vertical/horizontal classification applies.
pub open spec fn spec_face_kind_from_oriented_normal(normal: Vec3i, front: Facing) -> FaceKind {
    let fx = front.spec_as_normal();
    if normal == fx {
        FaceKind::Front
    } else if normal.x == -fx.x && normal.y == -fx.y && normal.z == -fx.z {
        FaceKind::Back
    } else if normal.y > 0 {
        FaceKind::Top
    } else if normal.y < 0 {
        FaceKind::Bottom
    } else {
        FaceKind::SideLeftRight
    }
}

/// Resolve the face class from a world normal, using a block-local front
/// orientation.
pub fn face_kind_from_oriented_normal(normal: Vec3i, front: Facing) -> (r: FaceKind)
    ensures
        r == spec_face_kind_from_oriented_normal(normal, front),
{
    let front_normal = front.as_normal();
    if normal.x == front_normal.x && normal.y == front_normal.y && normal.z == front_normal.z {
        FaceKind::Front
    } else if normal.x == -front_normal.x && normal.y == -front_normal.y && normal.z
        == -front_normal.z {
        FaceKind::Back
    } else if normal.y > 0 {
        FaceKind::Top
    } else if normal.y < 0 {
        FaceKind::Bottom
    } else {
        FaceKind::SideLeftRight
    }
}

/// Face texture id of one block face.
pub open spec fn spec_texture_for_face(block: Block, normal: Vec3i) -> TextureId {
    let face = spec_face_kind_from_oriented_normal(normal, block.front);
    spec_block_def(block.kind).materials.spec_texture_for_face(face)
}

/// Resolve the face texture id for one block face.
pub fn texture_for_face(block: Block, normal: Vec3i) -> (r: TextureId)
    ensures
        r == spec_texture_for_face(block, normal),
{
    let face = face_kind_from_oriented_normal(normal, block.front);
    def_for_block_kind(block.kind).materials.texture_for_face(face)
}

} // verus!
