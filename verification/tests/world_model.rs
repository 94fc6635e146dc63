//! Tests of chunk and world construction and cell access.

use voxel_world::block::Block;
use voxel_world::world::{Chunk, World, CHUNK_DEPTH, CHUNK_LENGTH, CHUNK_WIDTH};

#[test]
fn new_chunk_is_default_filled_at_origin() {
    let chunk = Chunk::new(3, 2, 4);
    assert_eq!(chunk.width, 3);
    assert_eq!(chunk.length, 2);
    assert_eq!(chunk.depth, 4);
    assert_eq!(chunk.position.x, 0);
    assert_eq!(chunk.position.y, 0);
    assert_eq!(chunk.position.z, 0);
    assert_eq!(chunk.blocks.len(), 24);
    for x in 0..3 {
        for z in 0..2 {
            for y in 0..4 {
                assert_eq!(chunk.block_at(x, z, y), Block::Dirt);
            }
        }
    }
}

#[test]
fn default_chunk_has_the_reference_extent() {
    let chunk = Chunk::default();
    assert_eq!(chunk.width, CHUNK_WIDTH);
    assert_eq!(chunk.length, CHUNK_LENGTH);
    assert_eq!(chunk.depth, CHUNK_DEPTH);
    assert_eq!(chunk.blocks.len(), CHUNK_WIDTH * CHUNK_LENGTH * CHUNK_DEPTH);
    assert_eq!(chunk.block_at(3, 3, 7), Block::Dirt);
}

#[test]
fn set_block_changes_only_the_addressed_cell() {
    let mut chunk = Chunk::new(2, 2, 2);
    chunk.set_block(1, 0, 1, Block::Rose);
    assert_eq!(chunk.block_at(1, 0, 1), Block::Rose);
    for x in 0..2 {
        for z in 0..2 {
            for y in 0..2 {
                if (x, z, y) != (1, 0, 1) {
                    assert_eq!(chunk.block_at(x, z, y), Block::Dirt);
                }
            }
        }
    }
}

#[test]
fn built_world_places_chunks_on_the_grid() {
    let world = World::build(2, 3, 4, 5, 6);
    assert_eq!(world.chunks.len(), 2);
    for (r, row) in world.chunks.iter().enumerate() {
        assert_eq!(row.len(), 3);
        for (c, chunk) in row.iter().enumerate() {
            assert_eq!(chunk.position.x, c * 4);
            assert_eq!(chunk.position.y, r * 5);
            assert_eq!(chunk.position.z, 0);
            assert_eq!(chunk.width, 4);
            assert_eq!(chunk.length, 5);
            assert_eq!(chunk.depth, 6);
            assert_eq!(chunk.block_at(3, 4, 5), Block::Dirt);
        }
    }
}

#[test]
fn reference_world_is_four_by_four() {
    let world = World::new();
    assert_eq!(world.chunks.len(), 4);
    for (r, row) in world.chunks.iter().enumerate() {
        assert_eq!(row.len(), 4);
        for (c, chunk) in row.iter().enumerate() {
            assert_eq!(chunk.position.x, c * CHUNK_WIDTH);
            assert_eq!(chunk.position.y, r * CHUNK_LENGTH);
            assert_eq!(chunk.position.z, 0);
        }
    }
}
