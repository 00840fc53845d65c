//! Assembly of the texture atlas image from decoded RGBA tiles: the
//! equal-size check across tiles and the horizontal composition of the
//! atlas byte buffer. Decoding and encoding of image files stay with
//! the caller.
use vstd::prelude::*;

verus! {

/// Bytes per RGBA pixel.
pub const RGBA_STRIDE: usize = 4;

/// Decoded RGBA8 texture payload.
pub struct RgbaTexture {
    /// Image width in pixels.
    pub width: u32,
    /// Image height in pixels.
    pub height: u32,
    /// Raw RGBA8 bytes in row-major order.
    pub data: Vec<u8>,
}

impl RgbaTexture {
    /// Well-formedness: the byte buffer holds exactly one RGBA pixel per
    /// cell of the image.
    pub open spec fn wf(self) -> bool {
        self.data@.len() == self.width * self.height * RGBA_STRIDE
    }
}

/// Size-mismatch report: the first tile whose dimensions differ from
/// the first tile's.
#[derive(Clone, Copy, Debug, PartialEq, Eq, Structural)]
pub struct TileSizeMismatch {
    /// Index of the first mismatching tile.
    pub index: usize,
    /// Width of the first tile.
    pub expected_width: u32,
    /// Height of the first tile.
    pub expected_height: u32,
    /// Width of the mismatching tile.
    pub width: u32,
    /// Height of the mismatching tile.
    pub height: u32,
}

/// Verify that all tile dimensions are equal, returning the common
/// `(width, height)`, or a report naming the first mismatching tile.
pub fn ensure_same_size(images: &Vec<RgbaTexture>) -> (r: Result<(u32, u32), TileSizeMismatch>)
    requires
        images@.len() > 0,
    ensures
        match r {
            Ok(dims) => {
                &&& dims.0 == images@[0].width
                &&& dims.1 == images@[0].height
                &&& forall|i: int| 0 <= i < images@.len() ==> (#[trigger] images@[i]).width
                    == images@[0].width && images@[i].height == images@[0].height
            },
            Err(e) => {
                &&& 0 < e.index < images@.len()
                &&& e.expected_width == images@[0].width
                &&& e.expected_height == images@[0].height
                &&& e.width == images@[e.index as int].width
                &&& e.height == images@[e.index as int].height
                &&& !(e.width == e.expected_width && e.height == e.expected_height)
                &&& forall|i: int| 0 <= i < e.index ==> (#[trigger] images@[i]).width
                    == images@[0].width && images@[i].height == images@[0].height
            },
        },
{
    let w = images[0].width;
    let h = images[0].height;
    let mut i: usize = 1;
    while i < images.len()
        invariant
            1 <= i,
            images@.len() > 0,
            w == images@[0].width,
            h == images@[0].height,
            forall|j: int| 0 <= j < i && j < images@.len() ==> (#[trigger] images@[j]).width == w
                && images@[j].height == h,
        decreases images@.len() - i,
    {
        if images[i].width != w || images[i].height != h {
            return Err(TileSizeMismatch {
                index: i,
                expected_width: w,
                expected_height: h,
                width: images[i].width,
                height: images[i].height,
            });
        }
        i = i + 1;
    }
    Ok((w, h))
}

/// The atlas byte at flat position `m`, copied from the owning tile:
/// the atlas lays the tiles side by side, so each output row interleaves
/// one pixel row of every tile.
pub open spec fn spec_atlas_byte(tiles: Seq<RgbaTexture>, tile_row: int, row_bytes: int, m: int)
    -> u8 {
    tiles[(m % row_bytes) / tile_row].data@[(m / row_bytes) * tile_row + (m % row_bytes)
        % tile_row]
}

/// Build the atlas RGBA bytes by laying the given equal-sized tiles out
/// in one horizontal row, in tile order.
pub fn build_atlas_data(tiles: &Vec<RgbaTexture>) -> (r: Vec<u8>)
    requires
        tiles@.len() > 0,
        tiles@[0].width >= 1,
        tiles@[0].height >= 1,
        forall|i: int| 0 <= i < tiles@.len() ==> (#[trigger] tiles@[i]).width == tiles@[0].width
            && tiles@[i].height == tiles@[0].height && tiles@[i].wf(),
        tiles@[0].width * RGBA_STRIDE * tiles@.len() * tiles@[0].height <= usize::MAX,
    ensures
        r@.len() == (tiles@[0].width * RGBA_STRIDE) * tiles@.len() * tiles@[0].height,
        forall|m: int| 0 <= m < r@.len() ==> r@[m] == spec_atlas_byte(
            tiles@,
            tiles@[0].width * RGBA_STRIDE,
            tiles@[0].width * RGBA_STRIDE * tiles@.len(),
            m,
        ),
        forall|y: int, i: int, k: int|
            0 <= y < tiles@[0].height && 0 <= i < tiles@.len() && 0 <= k < tiles@[0].width
                * RGBA_STRIDE ==> #[trigger] r@[y * (tiles@[0].width * RGBA_STRIDE
                * tiles@.len()) + i * (tiles@[0].width * RGBA_STRIDE) + k] == tiles@[i].data@[y
                * (tiles@[0].width * RGBA_STRIDE) + k],
{
    let ghost tw = tiles@[0].width as int;
    let ghost th = tiles@[0].height as int;
    let ghost n = tiles@.len() as int;
    proof {
        assert(tw * 4 <= usize::MAX && tw * 4 * n <= usize::MAX && tw * 4 * n * th
            <= usize::MAX) by (nonlinear_arith)
            requires
                tw >= 1,
                th >= 1,
                n >= 1,
                tw * 4 * n * th <= usize::MAX,
        ;
    }
    let tile_w = tiles[0].width as usize;
    let tile_h = tiles[0].height as usize;
    let tile_row: usize = tile_w * 4;
    let row_bytes: usize = tile_row * tiles.len();
    let total: usize = row_bytes * tile_h;
    let mut out: Vec<u8> = Vec::new();
    let mut m: usize = 0;
    while m < total
        invariant
            m <= total,
            tiles@.len() > 0,
            tile_w == tiles@[0].width,
            tile_h == tiles@[0].height,
            tile_w >= 1,
            tile_h >= 1,
            tile_row == tile_w * 4,
            row_bytes == tile_row * tiles@.len(),
            total == row_bytes * tile_h,
            forall|i: int| 0 <= i < tiles@.len() ==> (#[trigger] tiles@[i]).width == tiles@[0].width
                && tiles@[i].height == tiles@[0].height && tiles@[i].wf(),
            out@.len() == m,
            forall|p: int| 0 <= p < m ==> out@[p] == spec_atlas_byte(
                tiles@,
                tile_row as int,
                row_bytes as int,
                p,
            ),
        decreases total - m,
    {
        let y: usize = m / row_bytes;
        let rem: usize = m % row_bytes;
        let i: usize = rem / tile_row;
        let k: usize = rem % tile_row;
        proof {
            let mi = m as int;
            let tri = tile_row as int;
            let rbi = row_bytes as int;
            let ni = tiles@.len() as int;
            let thi = tile_h as int;
            vstd::arithmetic::div_mod::lemma_mod_bound(mi, rbi);
            assert(mi < rbi * thi);
            vstd::arithmetic::div_mod::lemma_multiply_divide_lt(mi, rbi, thi);
            assert((rem as int) < tri * ni);
            vstd::arithmetic::div_mod::lemma_multiply_divide_lt(rem as int, tri, ni);
            vstd::arithmetic::div_mod::lemma_mod_bound(rem as int, tri);
            let ti = tiles@[i as int];
            let twi = tile_w as int;
            assert(ti.wf());
            assert(ti.data@.len() == tri * thi) by (nonlinear_arith)
                requires
                    ti.data@.len() == ti.width * ti.height * 4,
                    ti.width == twi,
                    ti.height == thi,
                    tri == twi * 4,
            ;
            assert(tiles@[i as int].data@.len() == tri * thi);
            assert((y as int) * tri + (k as int) < tri * thi && (y as int) * tri + (k as int)
                <= usize::MAX) by (nonlinear_arith)
                requires
                    0 <= (y as int) < thi,
                    0 <= (k as int) < tri,
                    tri >= 1,
                    ni >= 1,
                    rbi == tri * ni,
                    rbi * thi <= usize::MAX,
            ;
        }
        let b = tiles[i].data[y * tile_row + k];
        out.push(b);
        m = m + 1;
    }
    proof {
        assert forall|yy: int, ii: int, kk: int|
            0 <= yy < th && 0 <= ii < n && 0 <= kk < tile_row as int implies #[trigger] out@[yy
            * (row_bytes as int) + ii * (tile_row as int) + kk] == tiles@[ii].data@[yy * (
        tile_row as int) + kk] by {
            let tri = tile_row as int;
            let rbi = row_bytes as int;
            let p = yy * rbi + ii * tri + kk;
            assert(0 <= ii * tri + kk < rbi && 0 <= p < rbi * th) by (nonlinear_arith)
                requires
                    0 <= yy < th,
                    0 <= ii < n,
                    0 <= kk < tri,
                    tri >= 1,
                    rbi == tri * n,
                    p == yy * rbi + ii * tri + kk,
            ;
            vstd::arithmetic::div_mod::lemma_fundamental_div_mod_converse(
                p,
                rbi,
                yy,
                ii * tri + kk,
            );
            vstd::arithmetic::div_mod::lemma_fundamental_div_mod_converse(ii * tri + kk, tri, ii, kk);
            assert(out@[p] == spec_atlas_byte(tiles@, tri, rbi, p));
        }
    }
    out
}

} // verus!
