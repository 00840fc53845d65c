//! Block identity and orientation: the block kind, the cardinal facing
//! stored on direction-sensitive blocks, and the snapping of arbitrary
//! integer direction vectors to the nearest cardinal facing.
use vstd::prelude::*;

use crate::block_defs::spec_block_def;
use crate::block_defs::def_for_block_kind;
use crate::coords::Vec3i;

verus! {

/// Absolute value of a mathematical integer.
pub open spec fn abs_int(a: int) -> int {
    if a < 0 {
        -a
    } else {
        a
    }
}

/// 3D front orientation stored on direction-sensitive blocks.
#[derive(Clone, Copy, Debug, PartialEq, Eq, Structural, Hash)]
pub enum Facing {
    /// Front points to world +X.
    PosX,
    /// Front points to world -X.
    NegX,
    /// Front points to world +Y.
    PosY,
    /// Front points to world -Y.
    NegY,
    /// Front points to world +Z.
    PosZ,
    /// Front points to world -Z.
    NegZ,
}

impl Facing {
    /// Nearest cardinal 3D facing of a direction vector: the axis of
    /// greatest magnitude wins (X before Y before Z on ties), and a zero
    /// vector defaults to +Z.
    pub open spec fn spec_from_direction(x: int, y: int, z: int) -> Facing {
        if x == 0 && y == 0 && z == 0 {
            Facing::PosZ
        } else if abs_int(x) >= abs_int(y) && abs_int(x) >= abs_int(z) {
            if x >= 0 {
                Facing::PosX
            } else {
                Facing::NegX
            }
        } else if abs_int(y) >= abs_int(x) && abs_int(y) >= abs_int(z) {
            if y >= 0 {
                Facing::PosY
            } else {
                Facing::NegY
            }
        } else if z >= 0 {
            Facing::PosZ
        } else {
            Facing::NegZ
        }
    }

    /// Resolve the nearest cardinal 3D facing from a direction vector
    /// given by integer components.
    pub fn from_direction(x: i64, y: i64, z: i64) -> (r: Facing)
        requires
            x > i64::MIN,
            y > i64::MIN,
            z > i64::MIN,
        ensures
            r == Facing::spec_from_direction(x as int, y as int, z as int),
    {
        let ax = if x < 0 { -x } else { x };
        let ay = if y < 0 { -y } else { y };
        let az = if z < 0 { -z } else { z };
        if x == 0 && y == 0 && z == 0 {
            Facing::PosZ
        } else if ax >= ay && ax >= az {
            if x >= 0 {
                Facing::PosX
            } else {
                Facing::NegX
            }
        } else if ay >= ax && ay >= az {
            if y >= 0 {
                Facing::PosY
            } else {
                Facing::NegY
            }
        } else if z >= 0 {
            Facing::PosZ
        } else {
            Facing::NegZ
        }
    }

    /// Nearest cardinal horizontal facing of a direction vector: only the
    /// X and Z magnitudes are compared, so the result is never +Y or -Y.
    pub open spec fn spec_from_horizontal_direction(x: int, z: int) -> Facing {
        if abs_int(x) >= abs_int(z) {
            if x >= 0 {
                Facing::PosX
            } else {
                Facing::NegX
            }
        } else if z >= 0 {
            Facing::PosZ
        } else {
            Facing::NegZ
        }
    }

    /// Resolve the nearest cardinal horizontal facing (never +Y/-Y) from a
    /// direction vector given by integer components.
    pub fn from_horizontal_direction(x: i64, z: i64) -> (r: Facing)
        requires
            x > i64::MIN,
            z > i64::MIN,
        ensures
            r == Facing::spec_from_horizontal_direction(x as int, z as int),
    {
        let ax = if x < 0 { -x } else { x };
        let az = if z < 0 { -z } else { z };
        if ax >= az {
            if x >= 0 {
                Facing::PosX
            } else {
                Facing::NegX
            }
        } else if z >= 0 {
            Facing::PosZ
        } else {
            Facing::NegZ
        }
    }

    /// This facing as a world-space unit normal.
    pub open spec fn spec_as_normal(self) -> Vec3i {
        match self {
            Facing::PosX => Vec3i { x: 1i32, y: 0i32, z: 0i32 },
            Facing::NegX => Vec3i { x: -1i32, y: 0i32, z: 0i32 },
            Facing::PosY => Vec3i { x: 0i32, y: 1i32, z: 0i32 },
            Facing::NegY => Vec3i { x: 0i32, y: -1i32, z: 0i32 },
            Facing::PosZ => Vec3i { x: 0i32, y: 0i32, z: 1i32 },
            Facing::NegZ => Vec3i { x: 0i32, y: 0i32, z: -1i32 },
        }
    }

    /// Return this facing as a world-space unit normal.
    pub fn as_normal(self) -> (r: Vec3i)
        ensures
            r == self.spec_as_normal(),
    {
        match self {
            Facing::PosX => Vec3i { x: 1, y: 0, z: 0 },
            Facing::NegX => Vec3i { x: -1, y: 0, z: 0 },
            Facing::PosY => Vec3i { x: 0, y: 1, z: 0 },
            Facing::NegY => Vec3i { x: 0, y: -1, z: 0 },
            Facing::PosZ => Vec3i { x: 0, y: 0, z: 1 },
            Facing::NegZ => Vec3i { x: 0, y: 0, z: -1 },
        }
    }
}

/// Semantic block kind used for behavior and material lookup.
#[derive(Clone, Copy, Debug, PartialEq, Eq, Structural, Hash)]
pub enum BlockKind {
    /// Empty cell with no geometry or collision.
    Air,
    /// Plain dirt block.
    Dirt,
    /// Dirt block with grass textures on top/sides.
    DirtWithGrass,
    /// Sand block affected by gravity when unsupported.
    Sand,
}

/// Voxel block state stored in chunk cells: a kind and a local front
/// orientation, replaced wholesale on mutation.
#[derive(Clone, Copy, Debug, PartialEq, Eq, Structural, Hash)]
pub struct Block {
    /// Semantic kind of this block.
    pub kind: BlockKind,
    /// Local "front" direction used to resolve front/back face materials.
    pub front: Facing,
}

impl Block {
    /// The air block value.
    pub open spec fn spec_air() -> Block {
        Block { kind: BlockKind::Air, front: Facing::PosZ }
    }

    /// Construct an air block.
    pub fn air() -> (r: Block)
        ensures
            r == Block::spec_air(),
    {
        Block { kind: BlockKind::Air, front: Facing::PosZ }
    }

    /// Construct a plain dirt block without grass overlay.
    pub fn dirt() -> (r: Block)
        ensures
            r == (Block { kind: BlockKind::Dirt, front: Facing::PosZ }),
    {
        Block { kind: BlockKind::Dirt, front: Facing::PosZ }
    }

    /// Construct a plain dirt block with an explicit local front.
    pub fn dirt_facing(front: Facing) -> (r: Block)
        ensures
            r == (Block { kind: BlockKind::Dirt, front }),
    {
        Block { kind: BlockKind::Dirt, front }
    }

    /// Construct a dirt block with grass overlay enabled.
    pub fn dirt_with_grass() -> (r: Block)
        ensures
            r == (Block { kind: BlockKind::DirtWithGrass, front: Facing::PosZ }),
    {
        Block { kind: BlockKind::DirtWithGrass, front: Facing::PosZ }
    }

    /// Construct a dirt-with-grass block with an explicit local front.
    pub fn dirt_with_grass_facing(front: Facing) -> (r: Block)
        ensures
            r == (Block { kind: BlockKind::DirtWithGrass, front }),
    {
        Block { kind: BlockKind::DirtWithGrass, front }
    }

    /// Construct a sand block.
    pub fn sand() -> (r: Block)
        ensures
            r == (Block { kind: BlockKind::Sand, front: Facing::PosZ }),
    {
        Block { kind: BlockKind::Sand, front: Facing::PosZ }
    }

    /// Construct a sand block with an explicit local front.
    pub fn sand_facing(front: Facing) -> (r: Block)
        ensures
            r == (Block { kind: BlockKind::Sand, front }),
    {
        Block { kind: BlockKind::Sand, front }
    }

    /// Whether this block is air.
    pub open spec fn spec_is_air(self) -> bool {
        self.kind is Air
    }

    /// Return `true` if this block is air.
    pub fn is_air(&self) -> (r: bool)
        ensures
            r == self.spec_is_air(),
    {
        matches!(self.kind, BlockKind::Air)
    }

    /// Whether this block should not fall under gravity rules.
    pub open spec fn spec_is_stable(self) -> bool {
        spec_block_def(self.kind).stable
    }

    /// Return `true` if this block should not fall under gravity rules.
    pub fn is_stable(&self) -> (r: bool)
        ensures
            r == self.spec_is_stable(),
    {
        def_for_block_kind(self.kind).stable
    }

    /// Whether interaction systems can operate on this block.
    pub open spec fn spec_is_interactable(self) -> bool {
        spec_block_def(self.kind).interactable
    }

    /// Return `true` if interaction systems can operate on this block.
    pub fn is_interactable(&self) -> (r: bool)
        ensures
            r == self.spec_is_interactable(),
    {
        def_for_block_kind(self.kind).interactable
    }

    /// Whether this block occupies space (non-air).
    pub open spec fn spec_is_solid(self) -> bool {
        spec_block_def(self.kind).solid
    }

    /// Return `true` if this block occupies space (non-air).
    pub fn is_solid(&self) -> (r: bool)
        ensures
            r == self.spec_is_solid(),
    {
        def_for_block_kind(self.kind).solid
    }

    /// Resolve the atlas texture id for one face normal.
    pub fn texture_for_face(&self, normal: Vec3i) -> (r: crate::material_catalog::TextureId)
        ensures
            r == crate::block_defs::spec_texture_for_face(*self, normal),
    {
        crate::block_defs::texture_for_face(*self, normal)
    }

    /// The copy of this block whose front is snapped from the given
    /// direction: kinds that allow a vertical front use the full 3D
    /// snapping, the rest use the horizontal-only snapping, and air is
    /// returned unchanged.
    pub open spec fn spec_with_front_from_direction(self, x: int, y: int, z: int) -> Block {
        let front = if spec_block_def(self.kind).allow_vertical_front {
            Facing::spec_from_direction(x, y, z)
        } else {
            Facing::spec_from_horizontal_direction(x, z)
        };
        if self.kind is Air {
            self
        } else {
            Block { kind: self.kind, front }
        }
    }

    /// Return a copy of this block whose front matches the given direction,
    /// given by integer components.
    pub fn with_front_from_direction(self, x: i64, y: i64, z: i64) -> (r: Block)
        requires
            x > i64::MIN,
            y > i64::MIN,
            z > i64::MIN,
        ensures
            r == self.spec_with_front_from_direction(x as int, y as int, z as int),
    {
        let front = if def_for_block_kind(self.kind).allow_vertical_front {
            Facing::from_direction(x, y, z)
        } else {
            Facing::from_horizontal_direction(x, z)
        };
        match self.kind {
            BlockKind::Dirt => Block::dirt_facing(front),
            BlockKind::DirtWithGrass => Block::dirt_with_grass_facing(front),
            BlockKind::Sand => Block::sand_facing(front),
            BlockKind::Air => self,
        }
    }
}

} // verus!
