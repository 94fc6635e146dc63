//! Block kinds, per-kind render configuration, and the block catalog.
//!
//! The catalog is a pure, total mapping from a block kind to its
//! [`BlockConfiguration`]: one tile index per cube face, a solidity flag
//! (solid blocks occlude their neighbors' faces) and an entity flag
//! (entity blocks render as two crossed quads instead of a cube).

use vstd::prelude::*;

verus! {

/// The reserved tile index meaning "no texture, do not render".
pub const SENTINEL_TILE: i32 = -1;

/// A named position in the texture atlas, identifying one tile.
#[derive(Clone, Copy, PartialEq, Eq, Structural, Debug)]
pub enum Tile {
    Air,
    Gravel,
    DirtSnowSide,
    Grass,
    DirtGrassSide,
    Cobblestone,
    Bedrock,
    Dirt,
    OakPlanks,
    TntSide,
    TntTop,
    TntBottom,
    Rose,
    Thistle,
}

impl Tile {
    /// The index of this tile in the flattened atlas-layer space;
    /// `Tile::Air` is the sentinel meaning "no texture".
    pub open spec fn index_spec(self) -> int {
        match self {
            Tile::Air => -1,
            Tile::Gravel => 0,
            Tile::DirtSnowSide => 1,
            Tile::Grass => 2,
            Tile::DirtGrassSide => 3,
            Tile::Cobblestone => 26,
            Tile::Bedrock => 32,
            Tile::Dirt => 50,
            Tile::OakPlanks => 53,
            Tile::TntSide => 62,
            Tile::TntTop => 63,
            Tile::TntBottom => 64,
            Tile::Rose => 68,
            Tile::Thistle => 69,
        }
    }

    /// Returns the atlas-layer index of this tile.
    pub fn index(&self) -> (i: i32)
        ensures
            i == self.index_spec(),
    {
        match *self {
            Tile::Air => -1,
            Tile::Gravel => 0,
            Tile::DirtSnowSide => 1,
            Tile::Grass => 2,
            Tile::DirtGrassSide => 3,
            Tile::Cobblestone => 26,
            Tile::Bedrock => 32,
            Tile::Dirt => 50,
            Tile::OakPlanks => 53,
            Tile::TntSide => 62,
            Tile::TntTop => 63,
            Tile::TntBottom => 64,
            Tile::Rose => 68,
            Tile::Thistle => 69,
        }
    }
}

/// The kind of a block; one grid cell holds one of these.
#[derive(Clone, Copy, PartialEq, Eq, Structural, Debug)]
pub enum Block {
    Air,
    Gravel,
    Grass,
    DirtWithGrass,
    Dirt,
    Cobblestone,
    Tnt,
    Bedrock,
    OakPlanks,
    Rose,
    Thistle,
}

impl Default for Block {
    /// The kind every chunk cell starts as.
    fn default() -> (b: Block)
        ensures
            b == Block::Dirt,
    {
        Block::Dirt
    }
}

/// How one block kind is rendered: a tile index per cube face, whether the
/// block occludes its neighbors' faces (`is_solid`), and whether it renders
/// as two crossed quads instead of a cube (`is_entity`).
#[derive(Clone, Copy, PartialEq, Eq, Structural, Debug)]
pub struct BlockConfiguration {
    pub left: i32,
    pub right: i32,
    pub front: i32,
    pub back: i32,
    pub top: i32,
    pub bottom: i32,
    pub is_entity: bool,
    pub is_solid: bool,
}

impl BlockConfiguration {
    /// All faces sentinel, non-solid, non-entity.
    pub open spec fn empty_spec() -> BlockConfiguration {
        BlockConfiguration {
            left: SENTINEL_TILE,
            right: SENTINEL_TILE,
            front: SENTINEL_TILE,
            back: SENTINEL_TILE,
            top: SENTINEL_TILE,
            bottom: SENTINEL_TILE,
            is_entity: false,
            is_solid: false,
        }
    }

    /// Each face given its own tile, solid, non-entity.
    pub open spec fn new_spec(
        left: Tile,
        right: Tile,
        front: Tile,
        back: Tile,
        top: Tile,
        bottom: Tile,
    ) -> BlockConfiguration {
        BlockConfiguration {
            left: left.index_spec() as i32,
            right: right.index_spec() as i32,
            front: front.index_spec() as i32,
            back: back.index_spec() as i32,
            top: top.index_spec() as i32,
            bottom: bottom.index_spec() as i32,
            is_entity: false,
            is_solid: true,
        }
    }

    /// All six faces the same tile, solid, non-entity.
    pub open spec fn new_single_spec(id: Tile) -> BlockConfiguration {
        BlockConfiguration {
            left: id.index_spec() as i32,
            right: id.index_spec() as i32,
            front: id.index_spec() as i32,
            back: id.index_spec() as i32,
            top: id.index_spec() as i32,
            bottom: id.index_spec() as i32,
            is_entity: false,
            is_solid: true,
        }
    }

    /// The four side faces share one tile; top and bottom are given.
    /// Solid, non-entity.
    pub open spec fn new_same_sides_spec(sides: Tile, top: Tile, bottom: Tile) -> BlockConfiguration {
        BlockConfiguration {
            left: sides.index_spec() as i32,
            right: sides.index_spec() as i32,
            front: sides.index_spec() as i32,
            back: sides.index_spec() as i32,
            top: top.index_spec() as i32,
            bottom: bottom.index_spec() as i32,
            is_entity: false,
            is_solid: true,
        }
    }

    /// Only the front tile is used (the crossed quads); every other face
    /// is sentinel. Entity, never solid.
    pub open spec fn new_entity_spec(tile: Tile) -> BlockConfiguration {
        BlockConfiguration {
            left: SENTINEL_TILE,
            right: SENTINEL_TILE,
            front: tile.index_spec() as i32,
            back: SENTINEL_TILE,
            top: SENTINEL_TILE,
            bottom: SENTINEL_TILE,
            is_entity: true,
            is_solid: false,
        }
    }

    /// Builds the all-sentinel, non-solid, non-entity configuration.
    pub fn empty() -> (c: BlockConfiguration)
        ensures
            c == BlockConfiguration::empty_spec(),
    {
        BlockConfiguration {
            left: SENTINEL_TILE,
            right: SENTINEL_TILE,
            front: SENTINEL_TILE,
            back: SENTINEL_TILE,
            top: SENTINEL_TILE,
            bottom: SENTINEL_TILE,
            is_entity: false,
            is_solid: false,
        }
    }

    /// Builds a solid cube configuration with one tile per face.
    pub fn new(left: Tile, right: Tile, front: Tile, back: Tile, top: Tile, bottom: Tile) -> (c:
        BlockConfiguration)
        ensures
            c == BlockConfiguration::new_spec(left, right, front, back, top, bottom),
    {
        BlockConfiguration {
            left: left.index(),
            right: right.index(),
            front: front.index(),
            back: back.index(),
            top: top.index(),
            bottom: bottom.index(),
            is_entity: false,
            is_solid: true,
        }
    }

    /// Builds a solid cube configuration with the same tile on all faces.
    pub fn new_single(id: Tile) -> (c: BlockConfiguration)
        ensures
            c == BlockConfiguration::new_single_spec(id),
    {
        let index = id.index();
        BlockConfiguration {
            left: index,
            right: index,
            front: index,
            back: index,
            top: index,
            bottom: index,
            is_entity: false,
            is_solid: true,
        }
    }

    /// Builds a solid cube configuration whose four sides share a tile.
    pub fn new_same_sides(sides: Tile, top: Tile, bottom: Tile) -> (c: BlockConfiguration)
        ensures
            c == BlockConfiguration::new_same_sides_spec(sides, top, bottom),
    {
        let side_index = sides.index();
        BlockConfiguration {
            left: side_index,
            right: side_index,
            front: side_index,
            back: side_index,
            top: top.index(),
            bottom: bottom.index(),
            is_entity: false,
            is_solid: true,
        }
    }

    /// Builds a crossed-quads (entity) configuration for the given tile.
    pub fn new_entity(tile: Tile) -> (c: BlockConfiguration)
        ensures
            c == BlockConfiguration::new_entity_spec(tile),
    {
        BlockConfiguration {
            left: SENTINEL_TILE,
            right: SENTINEL_TILE,
            front: tile.index(),
            back: SENTINEL_TILE,
            top: SENTINEL_TILE,
            bottom: SENTINEL_TILE,
            is_entity: true,
            is_solid: false,
        }
    }
}

/// The block catalog: the total mapping from block kind to configuration.
pub open spec fn catalog(kind: Block) -> BlockConfiguration {
    match kind {
        Block::Air => BlockConfiguration::empty_spec(),
        Block::Gravel => BlockConfiguration::new_single_spec(Tile::Gravel),
        Block::Grass => BlockConfiguration::new_single_spec(Tile::Grass),
        Block::Dirt => BlockConfiguration::new_single_spec(Tile::Dirt),
        Block::DirtWithGrass => BlockConfiguration::new_same_sides_spec(
            Tile::DirtGrassSide,
            Tile::Grass,
            Tile::Dirt,
        ),
        Block::Cobblestone => BlockConfiguration::new_single_spec(Tile::Cobblestone),
        Block::Tnt => BlockConfiguration::new_same_sides_spec(
            Tile::TntSide,
            Tile::TntTop,
            Tile::TntBottom,
        ),
        Block::Bedrock => BlockConfiguration::new_single_spec(Tile::Bedrock),
        Block::OakPlanks => BlockConfiguration::new_single_spec(Tile::OakPlanks),
        Block::Rose => BlockConfiguration::new_entity_spec(Tile::Rose),
        Block::Thistle => BlockConfiguration::new_entity_spec(Tile::Thistle),
    }
}

impl Block {
    /// Looks this kind up in the block catalog.
    pub fn configuration(&self) -> (c: BlockConfiguration)
        ensures
            c == catalog(*self),
    {
        match *self {
            Block::Air => BlockConfiguration::empty(),
            Block::Gravel => BlockConfiguration::new_single(Tile::Gravel),
            Block::Grass => BlockConfiguration::new_single(Tile::Grass),
            Block::Dirt => BlockConfiguration::new_single(Tile::Dirt),
            Block::DirtWithGrass => BlockConfiguration::new_same_sides(
                Tile::DirtGrassSide,
                Tile::Grass,
                Tile::Dirt,
            ),
            Block::Cobblestone => BlockConfiguration::new_single(Tile::Cobblestone),
            Block::Tnt => BlockConfiguration::new_same_sides(
                Tile::TntSide,
                Tile::TntTop,
                Tile::TntBottom,
            ),
            Block::Bedrock => BlockConfiguration::new_single(Tile::Bedrock),
            Block::OakPlanks => BlockConfiguration::new_single(Tile::OakPlanks),
            Block::Rose => BlockConfiguration::new_entity(Tile::Rose),
            Block::Thistle => BlockConfiguration::new_entity(Tile::Thistle),
        }
    }
}

/// A tile index is valid for an atlas with `layer_count` layers when it is
/// the sentinel or addresses an existing layer.
pub open spec fn tile_index_in_atlas(index: int, layer_count: int) -> bool {
    index == SENTINEL_TILE || 0 <= index < layer_count
}

/// No block kind is both an entity and solid: entity blocks (crossed
/// quads, e.g. foliage) never occlude their neighbors.
pub proof fn lemma_catalog_entity_solid_exclusive(kind: Block)
    ensures
        !(catalog(kind).is_entity && catalog(kind).is_solid),
{
}

/// Every tile index any catalog configuration refers to is either the
/// sentinel or lies inside an atlas of at least 70 layers; the reference
/// atlas (a 256 by 256 image sliced at dimension 16) has 256.
pub proof fn lemma_catalog_tile_indices_in_range(kind: Block, layer_count: int)
    requires
        layer_count >= 70,
    ensures
        tile_index_in_atlas(catalog(kind).left as int, layer_count),
        tile_index_in_atlas(catalog(kind).right as int, layer_count),
        tile_index_in_atlas(catalog(kind).front as int, layer_count),
        tile_index_in_atlas(catalog(kind).back as int, layer_count),
        tile_index_in_atlas(catalog(kind).top as int, layer_count),
        tile_index_in_atlas(catalog(kind).bottom as int, layer_count),
{
}

} // verus!
