use voxel_world::block::{Block, BlockKind, Facing};
use voxel_world::block_defs::{def_for_block_kind, face_kind_from_oriented_normal, texture_for_face,
    FaceKind};
use voxel_world::coords::Vec3i;
use voxel_world::material_catalog::{atlas_texture_order, atlas_tile_index, atlas_tiles_x,
    needs_v_flip, source_base_filename, source_overlay_filename, TextureId};

/// Verify stable/falling classification for all current block variants.
#[test]
fn block_stability_and_falling_rules() {
    let air = Block::air();
    assert!(air.is_air());
    assert!(!air.is_solid());
    assert!(!air.is_stable());

    let dirt = Block::dirt();
    assert!(!dirt.is_air());
    assert!(dirt.is_solid());
    assert!(dirt.is_stable());

    let grass_dirt = Block::dirt_with_grass();
    assert!(grass_dirt.is_solid());
    assert!(grass_dirt.is_stable());

    let sand = Block::sand();
    assert!(sand.is_solid());
    assert!(!sand.is_stable());
}

#[test]
fn block_interactability_follows_definitions() {
    assert!(!Block::air().is_interactable());
    assert!(Block::dirt().is_interactable());
    assert!(Block::dirt_with_grass().is_interactable());
    assert!(Block::sand().is_interactable());
    assert!(def_for_block_kind(BlockKind::Sand).allow_vertical_front);
    assert!(!def_for_block_kind(BlockKind::DirtWithGrass).allow_vertical_front);
}

#[test]
fn facing_from_direction_picks_dominant_axis() {
    assert_eq!(Facing::from_direction(5, 1, -2), Facing::PosX);
    assert_eq!(Facing::from_direction(-5, 1, -2), Facing::NegX);
    assert_eq!(Facing::from_direction(1, 7, 2), Facing::PosY);
    assert_eq!(Facing::from_direction(1, -7, 2), Facing::NegY);
    assert_eq!(Facing::from_direction(1, 2, 9), Facing::PosZ);
    assert_eq!(Facing::from_direction(1, 2, -9), Facing::NegZ);
    // A zero vector defaults to +Z.
    assert_eq!(Facing::from_direction(0, 0, 0), Facing::PosZ);
    // Ties prefer X over Y over Z.
    assert_eq!(Facing::from_direction(3, 3, 3), Facing::PosX);
}

#[test]
fn facing_from_horizontal_direction_never_vertical() {
    assert_eq!(Facing::from_horizontal_direction(4, 1), Facing::PosX);
    assert_eq!(Facing::from_horizontal_direction(-4, 1), Facing::NegX);
    assert_eq!(Facing::from_horizontal_direction(1, 4), Facing::PosZ);
    assert_eq!(Facing::from_horizontal_direction(1, -4), Facing::NegZ);
    assert_eq!(Facing::from_horizontal_direction(0, 0), Facing::PosX);
}

#[test]
fn with_front_from_direction_respects_vertical_allowance() {
    // Dirt allows a vertical front, so a mostly-upward look gives +Y.
    let oriented = Block::dirt().with_front_from_direction(1, 9, 2);
    assert_eq!(oriented, Block::dirt_facing(Facing::PosY));
    // Grassed dirt keeps its front horizontal.
    let oriented = Block::dirt_with_grass().with_front_from_direction(1, 9, 2);
    assert_eq!(oriented, Block::dirt_with_grass_facing(Facing::PosZ));
    // Air is returned unchanged.
    let air = Block::air();
    assert_eq!(air.with_front_from_direction(1, 9, 2), air);
}

#[test]
fn face_kind_uses_front_orientation_then_world_axes() {
    let px = Vec3i::new(1, 0, 0);
    let nx = Vec3i::new(-1, 0, 0);
    let up = Vec3i::new(0, 1, 0);
    let down = Vec3i::new(0, -1, 0);
    let pz = Vec3i::new(0, 0, 1);
    assert_eq!(face_kind_from_oriented_normal(px, Facing::PosX), FaceKind::Front);
    assert_eq!(face_kind_from_oriented_normal(nx, Facing::PosX), FaceKind::Back);
    assert_eq!(face_kind_from_oriented_normal(up, Facing::PosX), FaceKind::Top);
    assert_eq!(face_kind_from_oriented_normal(down, Facing::PosX), FaceKind::Bottom);
    assert_eq!(face_kind_from_oriented_normal(pz, Facing::PosX), FaceKind::SideLeftRight);
    // A vertical front claims the up face as Front.
    assert_eq!(face_kind_from_oriented_normal(up, Facing::PosY), FaceKind::Front);
}

#[test]
fn textures_resolve_per_face_for_grassed_dirt() {
    let grass = Block::dirt_with_grass();
    assert_eq!(grass.texture_for_face(Vec3i::new(0, 1, 0)), TextureId::GrassTop);
    assert_eq!(grass.texture_for_face(Vec3i::new(0, -1, 0)), TextureId::Dirt);
    assert_eq!(grass.texture_for_face(Vec3i::new(1, 0, 0)), TextureId::GrassSide);
    assert_eq!(texture_for_face(Block::sand(), Vec3i::new(0, 1, 0)), TextureId::Sand);
}

#[test]
fn atlas_catalog_is_consistent() {
    let order = atlas_texture_order();
    assert_eq!(
        order,
        vec![TextureId::GrassSide, TextureId::GrassTop, TextureId::Dirt, TextureId::Sand]
    );
    assert_eq!(atlas_tiles_x(), 4);
    for (i, texture) in order.iter().enumerate() {
        assert_eq!(atlas_tile_index(*texture) as usize, i);
    }
    assert!(needs_v_flip(TextureId::GrassSide));
    assert!(!needs_v_flip(TextureId::GrassTop));
    assert!(!needs_v_flip(TextureId::Dirt));
    assert!(!needs_v_flip(TextureId::Sand));
}

#[test]
fn atlas_source_filenames() {
    assert_eq!(source_base_filename(TextureId::GrassSide), "default_dirt.png");
    assert_eq!(source_base_filename(TextureId::GrassTop), "default_grass.png");
    assert_eq!(source_base_filename(TextureId::Dirt), "default_dirt.png");
    assert_eq!(source_base_filename(TextureId::Sand), "default_sand.png");
    assert_eq!(source_overlay_filename(TextureId::GrassSide), Some("default_grass_side.png"));
    assert_eq!(source_overlay_filename(TextureId::GrassTop), None);
    assert_eq!(source_overlay_filename(TextureId::Dirt), None);
    assert_eq!(source_overlay_filename(TextureId::Sand), None);
}
