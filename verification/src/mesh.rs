//! Face-culling mesh generation: converts one chunk's voxels into quad
//! geometry by emitting, for every non-air cell, each cube face whose
//! same-chunk neighbor cell is not solid. Faces at a chunk boundary are
//! always drawn, a known seam simplification.
//!
//! Geometry is produced on the integer block lattice: vertex positions
//! are corner coordinates in block units and UVs are atlas tile steps,
//! so that rendering only scales them by the block size.
use vstd::prelude::*;

use crate::block::Block;
use crate::block_defs::spec_texture_for_face;
use crate::chunk::{spec_get, spec_in_bounds, Chunk, CHUNK_VOLUME};
use crate::coords::Vec3i;
use crate::material_catalog::{atlas_tile_index, needs_v_flip, spec_atlas_tile_index,
    spec_needs_v_flip};

verus! {

/// Number of cube faces per cell.
pub const FACE_COUNT: usize = 6;

/// Number of (cell, face) slots walked during one chunk build.
pub const FACE_SLOTS: usize = 24576;

/// Componentwise sum of two integer vectors (on in-range inputs).
pub open spec fn spec_vadd(a: Vec3i, b: Vec3i) -> Vec3i {
    Vec3i { x: (a.x + b.x) as i32, y: (a.y + b.y) as i32, z: (a.z + b.z) as i32 }
}

/// One vertex's UV coordinate in atlas tile steps: the final UV is
/// `(u_num / ATLAS_TILES_X, v_num)`.
#[derive(Clone, Copy, Debug, PartialEq, Eq, Structural)]
pub struct UvVertex {
    /// Horizontal tile-step numerator.
    pub u_num: u32,
    /// Vertical coordinate, 0 or 1.
    pub v_num: u32,
}

/// Raw mesh buffers for one chunk, on the integer block lattice.
pub struct MeshData {
    /// Vertex positions as block-lattice corner coordinates.
    pub positions: Vec<Vec3i>,
    /// Per-vertex normals as unit integer vectors.
    pub normals: Vec<Vec3i>,
    /// Per-vertex UV coordinates in atlas tile steps.
    pub uvs: Vec<UvVertex>,
    /// Triangle index buffer.
    pub indices: Vec<u32>,
}

/// Table row describing one cube face: its normal, the neighbor offset
/// that decides visibility, and the four quad corners in unit-cube space.
pub struct FaceDef {
    /// Face normal for lighting and face-tile rule lookup.
    pub normal: Vec3i,
    /// Neighbor offset used to test whether a face is exposed.
    pub neighbor: Vec3i,
    /// First quad corner in unit-cube coordinates.
    pub c0: Vec3i,
    /// Second quad corner in unit-cube coordinates.
    pub c1: Vec3i,
    /// Third quad corner in unit-cube coordinates.
    pub c2: Vec3i,
    /// Fourth quad corner in unit-cube coordinates.
    pub c3: Vec3i,
}

/// The static cube-face table, by face index: +X, -X, +Y, -Y, +Z, -Z.
pub open spec fn spec_face_def(f: int) -> FaceDef {
    if f == 0 {
        FaceDef {
            normal: Vec3i { x: 1i32, y: 0i32, z: 0i32 },
            neighbor: Vec3i { x: 1i32, y: 0i32, z: 0i32 },
            c0: Vec3i { x: 1i32, y: 0i32, z: 0i32 },
            c1: Vec3i { x: 1i32, y: 1i32, z: 0i32 },
            c2: Vec3i { x: 1i32, y: 1i32, z: 1i32 },
            c3: Vec3i { x: 1i32, y: 0i32, z: 1i32 },
        }
    } else if f == 1 {
        FaceDef {
            normal: Vec3i { x: -1i32, y: 0i32, z: 0i32 },
            neighbor: Vec3i { x: -1i32, y: 0i32, z: 0i32 },
            c0: Vec3i { x: 0i32, y: 0i32, z: 1i32 },
            c1: Vec3i { x: 0i32, y: 1i32, z: 1i32 },
            c2: Vec3i { x: 0i32, y: 1i32, z: 0i32 },
            c3: Vec3i { x: 0i32, y: 0i32, z: 0i32 },
        }
    } else if f == 2 {
        FaceDef {
            normal: Vec3i { x: 0i32, y: 1i32, z: 0i32 },
            neighbor: Vec3i { x: 0i32, y: 1i32, z: 0i32 },
            c0: Vec3i { x: 0i32, y: 1i32, z: 0i32 },
            c1: Vec3i { x: 0i32, y: 1i32, z: 1i32 },
            c2: Vec3i { x: 1i32, y: 1i32, z: 1i32 },
            c3: Vec3i { x: 1i32, y: 1i32, z: 0i32 },
        }
    } else if f == 3 {
        FaceDef {
            normal: Vec3i { x: 0i32, y: -1i32, z: 0i32 },
            neighbor: Vec3i { x: 0i32, y: -1i32, z: 0i32 },
            c0: Vec3i { x: 0i32, y: 0i32, z: 1i32 },
            c1: Vec3i { x: 0i32, y: 0i32, z: 0i32 },
            c2: Vec3i { x: 1i32, y: 0i32, z: 0i32 },
            c3: Vec3i { x: 1i32, y: 0i32, z: 1i32 },
        }
    } else if f == 4 {
        FaceDef {
            normal: Vec3i { x: 0i32, y: 0i32, z: 1i32 },
            neighbor: Vec3i { x: 0i32, y: 0i32, z: 1i32 },
            c0: Vec3i { x: 1i32, y: 0i32, z: 1i32 },
            c1: Vec3i { x: 1i32, y: 1i32, z: 1i32 },
            c2: Vec3i { x: 0i32, y: 1i32, z: 1i32 },
            c3: Vec3i { x: 0i32, y: 0i32, z: 1i32 },
        }
    } else {
        FaceDef {
            normal: Vec3i { x: 0i32, y: 0i32, z: -1i32 },
            neighbor: Vec3i { x: 0i32, y: 0i32, z: -1i32 },
            c0: Vec3i { x: 0i32, y: 0i32, z: 0i32 },
            c1: Vec3i { x: 0i32, y: 1i32, z: 0i32 },
            c2: Vec3i { x: 1i32, y: 1i32, z: 0i32 },
            c3: Vec3i { x: 1i32, y: 0i32, z: 0i32 },
        }
    }
}

/// Return the face descriptor for one face index.
pub fn face_def(f: usize) -> (r: FaceDef)
    requires
        f < FACE_COUNT,
    ensures
        r == spec_face_def(f as int),
{
    if f == 0 {
        FaceDef {
            normal: Vec3i { x: 1, y: 0, z: 0 },
            neighbor: Vec3i { x: 1, y: 0, z: 0 },
            c0: Vec3i { x: 1, y: 0, z: 0 },
            c1: Vec3i { x: 1, y: 1, z: 0 },
            c2: Vec3i { x: 1, y: 1, z: 1 },
            c3: Vec3i { x: 1, y: 0, z: 1 },
        }
    } else if f == 1 {
        FaceDef {
            normal: Vec3i { x: -1, y: 0, z: 0 },
            neighbor: Vec3i { x: -1, y: 0, z: 0 },
            c0: Vec3i { x: 0, y: 0, z: 1 },
            c1: Vec3i { x: 0, y: 1, z: 1 },
            c2: Vec3i { x: 0, y: 1, z: 0 },
            c3: Vec3i { x: 0, y: 0, z: 0 },
        }
    } else if f == 2 {
        FaceDef {
            normal: Vec3i { x: 0, y: 1, z: 0 },
            neighbor: Vec3i { x: 0, y: 1, z: 0 },
            c0: Vec3i { x: 0, y: 1, z: 0 },
            c1: Vec3i { x: 0, y: 1, z: 1 },
            c2: Vec3i { x: 1, y: 1, z: 1 },
            c3: Vec3i { x: 1, y: 1, z: 0 },
        }
    } else if f == 3 {
        FaceDef {
            normal: Vec3i { x: 0, y: -1, z: 0 },
            neighbor: Vec3i { x: 0, y: -1, z: 0 },
            c0: Vec3i { x: 0, y: 0, z: 1 },
            c1: Vec3i { x: 0, y: 0, z: 0 },
            c2: Vec3i { x: 1, y: 0, z: 0 },
            c3: Vec3i { x: 1, y: 0, z: 1 },
        }
    } else if f == 4 {
        FaceDef {
            normal: Vec3i { x: 0, y: 0, z: 1 },
            neighbor: Vec3i { x: 0, y: 0, z: 1 },
            c0: Vec3i { x: 1, y: 0, z: 1 },
            c1: Vec3i { x: 1, y: 1, z: 1 },
            c2: Vec3i { x: 0, y: 1, z: 1 },
            c3: Vec3i { x: 0, y: 0, z: 1 },
        }
    } else {
        FaceDef {
            normal: Vec3i { x: 0, y: 0, z: -1 },
            neighbor: Vec3i { x: 0, y: 0, z: -1 },
            c0: Vec3i { x: 0, y: 0, z: 0 },
            c1: Vec3i { x: 0, y: 1, z: 0 },
            c2: Vec3i { x: 1, y: 1, z: 0 },
            c3: Vec3i { x: 1, y: 0, z: 0 },
        }
    }
}

/// The cell walked at position `n` of the build order: X fastest, then Y,
/// then Z, matching the flat chunk storage order.
pub open spec fn spec_cell_of_index(n: int) -> Vec3i {
    Vec3i { x: (n % 16) as i32, y: ((n / 16) % 16) as i32, z: (n / 256) as i32 }
}

/// Whether one face of one cell is emitted: the cell holds a non-air
/// block and the same-chunk neighbor cell across that face is not solid
/// (cells outside the chunk read as air, so boundary faces are emitted).
pub open spec fn spec_face_visible(cells: Seq<Block>, local: Vec3i, f: int) -> bool {
    &&& !spec_get(cells, local).spec_is_air()
    &&& !spec_get(cells, spec_vadd(local, spec_face_def(f).neighbor)).spec_is_solid()
}

/// One emitted quad: its cell, its face index, and the block whose
/// textures it samples.
pub struct QuadRef {
    /// Chunk-local cell of the quad.
    pub local: Vec3i,
    /// Face index of the quad.
    pub face: int,
    /// Block whose face materials the quad uses.
    pub block: Block,
}

/// The quads emitted by the first `m` (cell, face) slots of the build
/// order, in emission order.
pub open spec fn spec_quads_upto(cells: Seq<Block>, m: int) -> Seq<QuadRef>
    decreases m,
{
    if m <= 0 {
        Seq::empty()
    } else {
        let k = m - 1;
        let local = spec_cell_of_index(k / 6);
        let f = k % 6;
        if spec_face_visible(cells, local, f) {
            spec_quads_upto(cells, k).push(
                QuadRef { local, face: f, block: spec_get(cells, local) },
            )
        } else {
            spec_quads_upto(cells, k)
        }
    }
}

/// All quads emitted for one chunk, in emission order.
pub open spec fn spec_chunk_quads(cells: Seq<Block>) -> Seq<QuadRef> {
    spec_quads_upto(cells, FACE_SLOTS as int)
}

/// No more quads are emitted than slots walked.
pub proof fn lemma_quads_upto_len(cells: Seq<Block>, m: int)
    ensures
        spec_quads_upto(cells, m).len() <= (if m >= 0 { m } else { 0 }),
    decreases m,
{
    if m > 0 {
        lemma_quads_upto_len(cells, m - 1);
    }
}

/// The `j`-th vertex position of a quad: the cell's minimum corner plus
/// the face's `j`-th unit-cube corner, in block units.
pub open spec fn spec_quad_position(local: Vec3i, f: int, j: int) -> Vec3i {
    let fd = spec_face_def(f);
    if j == 0 {
        spec_vadd(local, fd.c0)
    } else if j == 1 {
        spec_vadd(local, fd.c1)
    } else if j == 2 {
        spec_vadd(local, fd.c2)
    } else {
        spec_vadd(local, fd.c3)
    }
}

/// The `j`-th vertex UV of a quad, in atlas tile steps: the block's face
/// texture selects the tile column, and V runs 0 to 1, flipped for tiles
/// whose source art needs correction.
pub open spec fn spec_quad_uv(block: Block, f: int, j: int) -> UvVertex {
    let tex = spec_texture_for_face(block, spec_face_def(f).normal);
    let t = spec_atlas_tile_index(tex);
    let u = if j == 0 || j == 1 {
        t
    } else {
        (t + 1) as u32
    };
    let v_plain: u32 = if j == 1 || j == 2 {
        1
    } else {
        0
    };
    let v = if spec_needs_v_flip(tex) {
        (1 - v_plain) as u32
    } else {
        v_plain
    };
    UvVertex { u_num: u, v_num: v }
}

impl MeshData {
    /// This mesh holds exactly the given quads, in order: four vertices
    /// per quad with the face's corner positions, flat normal and atlas
    /// UVs, and six indices per quad forming the triangles
    /// `(0, 1, 2)` and `(0, 2, 3)` of that quad.
    pub open spec fn represents(self, quads: Seq<QuadRef>) -> bool {
        &&& self.positions@.len() == 4 * quads.len()
        &&& self.normals@.len() == 4 * quads.len()
        &&& self.uvs@.len() == 4 * quads.len()
        &&& self.indices@.len() == 6 * quads.len()
        &&& forall|i: int| 0 <= i < quads.len() ==> {
            let q = #[trigger] quads[i];
            &&& self.positions@[4 * i] == spec_quad_position(q.local, q.face, 0)
            &&& self.positions@[4 * i + 1] == spec_quad_position(q.local, q.face, 1)
            &&& self.positions@[4 * i + 2] == spec_quad_position(q.local, q.face, 2)
            &&& self.positions@[4 * i + 3] == spec_quad_position(q.local, q.face, 3)
            &&& self.normals@[4 * i] == spec_face_def(q.face).normal
            &&& self.normals@[4 * i + 1] == spec_face_def(q.face).normal
            &&& self.normals@[4 * i + 2] == spec_face_def(q.face).normal
            &&& self.normals@[4 * i + 3] == spec_face_def(q.face).normal
            &&& self.uvs@[4 * i] == spec_quad_uv(q.block, q.face, 0)
            &&& self.uvs@[4 * i + 1] == spec_quad_uv(q.block, q.face, 1)
            &&& self.uvs@[4 * i + 2] == spec_quad_uv(q.block, q.face, 2)
            &&& self.uvs@[4 * i + 3] == spec_quad_uv(q.block, q.face, 3)
            &&& self.indices@[6 * i] as int == 4 * i
            &&& self.indices@[6 * i + 1] as int == 4 * i + 1
            &&& self.indices@[6 * i + 2] as int == 4 * i + 2
            &&& self.indices@[6 * i + 3] as int == 4 * i
            &&& self.indices@[6 * i + 4] as int == 4 * i + 2
            &&& self.indices@[6 * i + 5] as int == 4 * i + 3
        }
    }

    /// Number of quads held by this mesh.
    pub fn quad_count(&self) -> (r: usize)
        requires
            exists|quads: Seq<QuadRef>| self.represents(quads),
        ensures
            forall|quads: Seq<QuadRef>| self.represents(quads) ==> r == quads.len(),
    {
        self.indices.len() / 6
    }
}

/// Append one quad to the mesh buffers as two indexed triangles, in the
/// order `(0, 1, 2)`, `(0, 2, 3)`.
fn add_face(mesh: &mut MeshData, local: Vec3i, f: usize, block: Block)
    requires
        f < FACE_COUNT,
        0 <= local.x < 16,
        0 <= local.y < 16,
        0 <= local.z < 16,
        old(mesh).positions@.len() + 4 <= u32::MAX,
    ensures
        final(mesh).positions@ == old(mesh).positions@ + seq![
            spec_quad_position(local, f as int, 0),
            spec_quad_position(local, f as int, 1),
            spec_quad_position(local, f as int, 2),
            spec_quad_position(local, f as int, 3),
        ],
        final(mesh).normals@ == old(mesh).normals@ + seq![
            spec_face_def(f as int).normal,
            spec_face_def(f as int).normal,
            spec_face_def(f as int).normal,
            spec_face_def(f as int).normal,
        ],
        final(mesh).uvs@ == old(mesh).uvs@ + seq![
            spec_quad_uv(block, f as int, 0),
            spec_quad_uv(block, f as int, 1),
            spec_quad_uv(block, f as int, 2),
            spec_quad_uv(block, f as int, 3),
        ],
        final(mesh).indices@ == old(mesh).indices@ + {
            let s = old(mesh).positions@.len() as int;
            seq![
                s as u32,
                (s + 1) as u32,
                (s + 2) as u32,
                s as u32,
                (s + 2) as u32,
                (s + 3) as u32,
            ]
        },
{
    let fd = face_def(f);
    let start: u32 = mesh.positions.len() as u32;
    let p0 = Vec3i { x: local.x + fd.c0.x, y: local.y + fd.c0.y, z: local.z + fd.c0.z };
    let p1 = Vec3i { x: local.x + fd.c1.x, y: local.y + fd.c1.y, z: local.z + fd.c1.z };
    let p2 = Vec3i { x: local.x + fd.c2.x, y: local.y + fd.c2.y, z: local.z + fd.c2.z };
    let p3 = Vec3i { x: local.x + fd.c3.x, y: local.y + fd.c3.y, z: local.z + fd.c3.z };
    mesh.positions.push(p0);
    mesh.positions.push(p1);
    mesh.positions.push(p2);
    mesh.positions.push(p3);
    mesh.normals.push(fd.normal);
    mesh.normals.push(fd.normal);
    mesh.normals.push(fd.normal);
    mesh.normals.push(fd.normal);
    let texture = block.texture_for_face(fd.normal);
    let tile = atlas_tile_index(texture);
    let flip = needs_v_flip(texture);
    let v_lo: u32 = if flip { 1 } else { 0 };
    let v_hi: u32 = if flip { 0 } else { 1 };
    mesh.uvs.push(UvVertex { u_num: tile, v_num: v_lo });
    mesh.uvs.push(UvVertex { u_num: tile, v_num: v_hi });
    mesh.uvs.push(UvVertex { u_num: tile + 1, v_num: v_hi });
    mesh.uvs.push(UvVertex { u_num: tile + 1, v_num: v_lo });
    mesh.indices.push(start);
    mesh.indices.push(start + 1);
    mesh.indices.push(start + 2);
    mesh.indices.push(start);
    mesh.indices.push(start + 2);
    mesh.indices.push(start + 3);
    proof {
        assert(final(mesh).positions@ =~= old(mesh).positions@ + seq![
            spec_quad_position(local, f as int, 0),
            spec_quad_position(local, f as int, 1),
            spec_quad_position(local, f as int, 2),
            spec_quad_position(local, f as int, 3),
        ]);
        assert(final(mesh).normals@ =~= old(mesh).normals@ + seq![
            spec_face_def(f as int).normal,
            spec_face_def(f as int).normal,
            spec_face_def(f as int).normal,
            spec_face_def(f as int).normal,
        ]);
        assert(final(mesh).uvs@ =~= old(mesh).uvs@ + seq![
            spec_quad_uv(block, f as int, 0),
            spec_quad_uv(block, f as int, 1),
            spec_quad_uv(block, f as int, 2),
            spec_quad_uv(block, f as int, 3),
        ]);
        assert(final(mesh).indices@ =~= old(mesh).indices@ + {
            let s = old(mesh).positions@.len() as int;
            seq![
                s as u32,
                (s + 1) as u32,
                (s + 2) as u32,
                s as u32,
                (s + 2) as u32,
                (s + 3) as u32,
            ]
        });
    }
}

/// Build the mesh data for all visible faces of one chunk: for each cell
/// in storage order and each face in table order, a quad is emitted
/// exactly when the cell is non-air and the face's same-chunk neighbor is
/// not solid.
pub fn build_chunk_mesh_data(chunk: &Chunk) -> (r: MeshData)
    requires
        chunk.wf(),
    ensures
        r.represents(spec_chunk_quads(chunk@)),
{
    let mut mesh = MeshData {
        positions: Vec::new(),
        normals: Vec::new(),
        uvs: Vec::new(),
        indices: Vec::new(),
    };
    let mut n: usize = 0;
    while n < CHUNK_VOLUME
        invariant
            n <= CHUNK_VOLUME,
            chunk.wf(),
            mesh.represents(spec_quads_upto(chunk@, 6 * n)),
        decreases CHUNK_VOLUME - n,
    {
        let x: i32 = (n % 16) as i32;
        let y: i32 = ((n / 16) % 16) as i32;
        let z: i32 = (n / 256) as i32;
        let local = Vec3i { x, y, z };
        proof {
            assert(local == spec_cell_of_index(n as int));
        }
        let block = chunk.get_block(local);
        let mut f: usize = 0;
        while f < FACE_COUNT
            invariant
                f <= FACE_COUNT,
                n < CHUNK_VOLUME,
                chunk.wf(),
                local == spec_cell_of_index(n as int),
                0 <= local.x < 16,
                0 <= local.y < 16,
                0 <= local.z < 16,
                block == spec_get(chunk@, local),
                mesh.represents(spec_quads_upto(chunk@, 6 * n + f)),
            decreases FACE_COUNT - f,
        {
            let ghost m = 6 * n + f;
            let ghost prev_quads = spec_quads_upto(chunk@, m as int);
            proof {
                lemma_quads_upto_len(chunk@, m as int);
                assert((m as int) / 6 == n as int && (m as int) % 6 == f as int) by {
                    vstd::arithmetic::div_mod::lemma_fundamental_div_mod_converse(
                        m as int,
                        6,
                        n as int,
                        f as int,
                    );
                }
            }
            let fd = face_def(f);
            let neighbor = Vec3i {
                x: local.x + fd.neighbor.x,
                y: local.y + fd.neighbor.y,
                z: local.z + fd.neighbor.z,
            };
            proof {
                assert(neighbor == spec_vadd(local, spec_face_def(f as int).neighbor));
            }
            let neighbor_block = chunk.get_block(neighbor);
            if !block.is_air() && !neighbor_block.is_solid() {
                assert(spec_face_visible(chunk@, local, f as int));
                add_face(&mut mesh, local, f, block);
                proof {
                    let new_quads = spec_quads_upto(chunk@, m + 1);
                    assert(new_quads == prev_quads.push(
                        QuadRef { local, face: f as int, block },
                    ));
                    assert(mesh.represents(new_quads));
                }
            } else {
                assert(!spec_face_visible(chunk@, local, f as int));
                proof {
                    assert(spec_quads_upto(chunk@, m + 1) == prev_quads);
                }
            }
            f = f + 1;
        }
        n = n + 1;
    }
    mesh
}

/// The quads of a single free-standing block: all six faces of the cell
/// at the origin, in face-table order.
pub open spec fn spec_single_block_quads(block: Block) -> Seq<QuadRef> {
    let o = Vec3i { x: 0i32, y: 0i32, z: 0i32 };
    seq![
        QuadRef { local: o, face: 0, block },
        QuadRef { local: o, face: 1, block },
        QuadRef { local: o, face: 2, block },
        QuadRef { local: o, face: 3, block },
        QuadRef { local: o, face: 4, block },
        QuadRef { local: o, face: 5, block },
    ]
}

/// Build the mesh data for a single free-standing block (used for the
/// in-hand preview): all six faces, never culled.
pub fn build_single_block_mesh_data(block: Block) -> (r: MeshData)
    ensures
        r.represents(spec_single_block_quads(block)),
{
    let mut mesh = MeshData {
        positions: Vec::new(),
        normals: Vec::new(),
        uvs: Vec::new(),
        indices: Vec::new(),
    };
    let origin = Vec3i { x: 0, y: 0, z: 0 };
    let mut f: usize = 0;
    while f < FACE_COUNT
        invariant
            f <= FACE_COUNT,
            origin == (Vec3i { x: 0i32, y: 0i32, z: 0i32 }),
            mesh.represents(spec_single_block_quads(block).subrange(0, f as int)),
        decreases FACE_COUNT - f,
    {
        let ghost before = spec_single_block_quads(block).subrange(0, f as int);
        add_face(&mut mesh, origin, f, block);
        proof {
            assert(spec_single_block_quads(block).subrange(0, f + 1) =~= before.push(
                QuadRef { local: origin, face: f as int, block },
            ));
            assert(mesh.represents(spec_single_block_quads(block).subrange(0, f + 1)));
        }
        f = f + 1;
    }
    proof {
        assert(spec_single_block_quads(block).subrange(0, 6) =~= spec_single_block_quads(block));
    }
    mesh
}

} // verus!
