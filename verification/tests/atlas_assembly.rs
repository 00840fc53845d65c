use voxel_world::atlas_image::{build_atlas_data, ensure_same_size, RgbaTexture};

fn tile_1x1(r: u8, g: u8, b: u8, a: u8) -> RgbaTexture {
    RgbaTexture { width: 1, height: 1, data: vec![r, g, b, a] }
}

/// Equal-sized tiles pass the size check with their common dimensions.
#[test]
fn same_size_tiles_accepted() {
    let tiles = vec![tile_1x1(1, 2, 3, 4), tile_1x1(5, 6, 7, 8)];
    assert_eq!(ensure_same_size(&tiles), Ok((1, 1)));
}

/// The first mismatching tile is reported with both sizes.
#[test]
fn size_mismatch_reports_first_offender() {
    let odd = RgbaTexture { width: 2, height: 1, data: vec![0; 8] };
    let tiles = vec![tile_1x1(0, 0, 0, 0), tile_1x1(0, 0, 0, 0), odd];
    let err = ensure_same_size(&tiles).unwrap_err();
    assert_eq!(err.index, 2);
    assert_eq!((err.expected_width, err.expected_height), (1, 1));
    assert_eq!((err.width, err.height), (2, 1));
}

/// One-pixel tiles are laid out side by side, in tile order.
#[test]
fn atlas_lays_tiles_horizontally() {
    let tiles = vec![tile_1x1(10, 11, 12, 13), tile_1x1(20, 21, 22, 23)];
    let atlas = build_atlas_data(&tiles);
    assert_eq!(atlas, vec![10, 11, 12, 13, 20, 21, 22, 23]);
}

/// Multi-row tiles interleave one pixel row of every tile per atlas row.
#[test]
fn atlas_interleaves_rows_of_taller_tiles() {
    let left = RgbaTexture { width: 1, height: 2, data: vec![1, 1, 1, 1, 2, 2, 2, 2] };
    let right = RgbaTexture { width: 1, height: 2, data: vec![3, 3, 3, 3, 4, 4, 4, 4] };
    let atlas = build_atlas_data(&vec![left, right]);
    assert_eq!(
        atlas,
        vec![
            1, 1, 1, 1, 3, 3, 3, 3, // first pixel row of both tiles
            2, 2, 2, 2, 4, 4, 4, 4, // second pixel row of both tiles
        ]
    );
}
