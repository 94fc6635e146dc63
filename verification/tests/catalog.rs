//! Tests of the tile indices, the configuration constructors and the
//! block catalog.

use voxel_world::block::{Block, BlockConfiguration, Tile, SENTINEL_TILE};

#[test]
fn tile_indices_match_the_atlas_layout() {
    assert_eq!(Tile::Air.index(), -1);
    assert_eq!(Tile::Gravel.index(), 0);
    assert_eq!(Tile::DirtSnowSide.index(), 1);
    assert_eq!(Tile::Grass.index(), 2);
    assert_eq!(Tile::DirtGrassSide.index(), 3);
    assert_eq!(Tile::Cobblestone.index(), 26);
    assert_eq!(Tile::Bedrock.index(), 32);
    assert_eq!(Tile::Dirt.index(), 50);
    assert_eq!(Tile::OakPlanks.index(), 53);
    assert_eq!(Tile::TntSide.index(), 62);
    assert_eq!(Tile::TntTop.index(), 63);
    assert_eq!(Tile::TntBottom.index(), 64);
    assert_eq!(Tile::Rose.index(), 68);
    assert_eq!(Tile::Thistle.index(), 69);
}

#[test]
fn empty_configuration_is_all_sentinel() {
    let c = BlockConfiguration::empty();
    assert_eq!(c.left, SENTINEL_TILE);
    assert_eq!(c.right, SENTINEL_TILE);
    assert_eq!(c.front, SENTINEL_TILE);
    assert_eq!(c.back, SENTINEL_TILE);
    assert_eq!(c.top, SENTINEL_TILE);
    assert_eq!(c.bottom, SENTINEL_TILE);
    assert!(!c.is_entity);
    assert!(!c.is_solid);
}

#[test]
fn per_face_constructor_assigns_each_face() {
    let c = BlockConfiguration::new(
        Tile::Gravel,
        Tile::Grass,
        Tile::Dirt,
        Tile::Cobblestone,
        Tile::Bedrock,
        Tile::OakPlanks,
    );
    assert_eq!(c.left, 0);
    assert_eq!(c.right, 2);
    assert_eq!(c.front, 50);
    assert_eq!(c.back, 26);
    assert_eq!(c.top, 32);
    assert_eq!(c.bottom, 53);
    assert!(!c.is_entity);
    assert!(c.is_solid);
}

#[test]
fn single_tile_constructor_covers_all_faces() {
    let c = BlockConfiguration::new_single(Tile::Cobblestone);
    assert_eq!(c.left, 26);
    assert_eq!(c.right, 26);
    assert_eq!(c.front, 26);
    assert_eq!(c.back, 26);
    assert_eq!(c.top, 26);
    assert_eq!(c.bottom, 26);
    assert!(!c.is_entity);
    assert!(c.is_solid);
}

#[test]
fn same_sides_constructor_separates_top_and_bottom() {
    let c = BlockConfiguration::new_same_sides(Tile::TntSide, Tile::TntTop, Tile::TntBottom);
    assert_eq!(c.left, 62);
    assert_eq!(c.right, 62);
    assert_eq!(c.front, 62);
    assert_eq!(c.back, 62);
    assert_eq!(c.top, 63);
    assert_eq!(c.bottom, 64);
    assert!(!c.is_entity);
    assert!(c.is_solid);
}

#[test]
fn entity_constructor_uses_only_the_front_tile() {
    let c = BlockConfiguration::new_entity(Tile::Rose);
    assert_eq!(c.front, 68);
    assert_eq!(c.left, SENTINEL_TILE);
    assert_eq!(c.right, SENTINEL_TILE);
    assert_eq!(c.back, SENTINEL_TILE);
    assert_eq!(c.top, SENTINEL_TILE);
    assert_eq!(c.bottom, SENTINEL_TILE);
    assert!(c.is_entity);
    assert!(!c.is_solid);
}

fn all_kinds() -> Vec<Block> {
    vec![
        Block::Air,
        Block::Gravel,
        Block::Grass,
        Block::DirtWithGrass,
        Block::Dirt,
        Block::Cobblestone,
        Block::Tnt,
        Block::Bedrock,
        Block::OakPlanks,
        Block::Rose,
        Block::Thistle,
    ]
}

#[test]
fn catalog_maps_every_kind_as_specified() {
    let air = Block::Air.configuration();
    assert_eq!(air.left, SENTINEL_TILE);
    assert!(!air.is_solid);
    assert!(!air.is_entity);

    let gravel = Block::Gravel.configuration();
    assert_eq!(gravel.top, 0);
    assert!(gravel.is_solid);

    let grass = Block::Grass.configuration();
    assert_eq!(grass.bottom, 2);

    let dirt_grass = Block::DirtWithGrass.configuration();
    assert_eq!(dirt_grass.left, 3);
    assert_eq!(dirt_grass.right, 3);
    assert_eq!(dirt_grass.front, 3);
    assert_eq!(dirt_grass.back, 3);
    assert_eq!(dirt_grass.top, 2);
    assert_eq!(dirt_grass.bottom, 50);

    let dirt = Block::Dirt.configuration();
    assert_eq!(dirt.front, 50);

    let cobble = Block::Cobblestone.configuration();
    assert_eq!(cobble.back, 26);

    let tnt = Block::Tnt.configuration();
    assert_eq!(tnt.left, 62);
    assert_eq!(tnt.top, 63);
    assert_eq!(tnt.bottom, 64);

    let bedrock = Block::Bedrock.configuration();
    assert_eq!(bedrock.right, 32);

    let planks = Block::OakPlanks.configuration();
    assert_eq!(planks.top, 53);

    let rose = Block::Rose.configuration();
    assert!(rose.is_entity);
    assert_eq!(rose.front, 68);

    let thistle = Block::Thistle.configuration();
    assert!(thistle.is_entity);
    assert_eq!(thistle.front, 69);
}

#[test]
fn no_kind_is_both_entity_and_solid() {
    for kind in all_kinds() {
        let c = kind.configuration();
        assert!(!(c.is_entity && c.is_solid));
    }
}

#[test]
fn every_catalog_tile_index_is_sentinel_or_inside_the_reference_atlas() {
    let layer_count = 256;
    for kind in all_kinds() {
        let c = kind.configuration();
        for index in [c.left, c.right, c.front, c.back, c.top, c.bottom] {
            assert!(index == SENTINEL_TILE || (0 <= index && index < layer_count));
        }
    }
}

#[test]
fn default_block_is_dirt_not_air() {
    assert_eq!(Block::default(), Block::Dirt);
    assert!(Block::default().configuration().is_solid);
}
