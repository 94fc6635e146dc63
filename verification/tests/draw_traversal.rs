//! Tests of the face-culling draw traversal.

use voxel_world::block::Block;
use voxel_world::draw::{draw_chunk, draw_world, DrawCommand, DrawKind, Face};
use voxel_world::world::{Chunk, World};

fn face_of(cmd: &DrawCommand) -> Option<Face> {
    match cmd.kind {
        DrawKind::CubeFace { face, .. } => Some(face),
        DrawKind::EntityQuad { .. } => None,
    }
}

#[test]
fn vertex_offsets_follow_the_buffer_layout() {
    assert_eq!(Face::Back.vertex_offset(), 0);
    assert_eq!(Face::Front.vertex_offset(), 6);
    assert_eq!(Face::Left.vertex_offset(), 12);
    assert_eq!(Face::Right.vertex_offset(), 18);
    assert_eq!(Face::Bottom.vertex_offset(), 24);
    assert_eq!(Face::Top.vertex_offset(), 30);
}

#[test]
fn lone_block_draws_all_six_faces_in_order() {
    let chunk = Chunk::new(1, 1, 1);
    let cmds = draw_chunk(&chunk);
    assert_eq!(cmds.len(), 6);
    let faces: Vec<Face> = cmds.iter().map(|c| face_of(c).unwrap()).collect();
    assert_eq!(
        faces,
        vec![Face::Back, Face::Front, Face::Left, Face::Right, Face::Bottom, Face::Top]
    );
    for cmd in &cmds {
        assert_eq!((cmd.x, cmd.z, cmd.y), (0, 0, 0));
        match cmd.kind {
            DrawKind::CubeFace { tile, .. } => assert_eq!(tile, 50),
            _ => panic!("expected a cube face"),
        }
    }
}

#[test]
fn air_chunk_emits_nothing() {
    let mut chunk = Chunk::new(2, 2, 1);
    for x in 0..2 {
        for z in 0..2 {
            chunk.set_block(x, z, 0, Block::Air);
        }
    }
    let cmds = draw_chunk(&chunk);
    assert_eq!(cmds.len(), 0);
}

#[test]
fn air_never_culls_and_never_stops_the_traversal() {
    // Air first, a solid block after it: the traversal must still reach
    // the solid block, and the air cell must not occlude its left face.
    let mut chunk = Chunk::new(2, 1, 1);
    chunk.set_block(0, 0, 0, Block::Air);
    let cmds = draw_chunk(&chunk);
    assert_eq!(cmds.len(), 6);
    for cmd in &cmds {
        assert_eq!((cmd.x, cmd.z, cmd.y), (1, 0, 0));
    }
}

#[test]
fn solid_uniform_chunk_draws_only_boundary_faces() {
    let chunk = Chunk::new(2, 2, 2);
    let cmds = draw_chunk(&chunk);
    // Every cell of a 2x2x2 chunk touches three chunk boundaries, so each
    // draws exactly its three outward faces.
    assert_eq!(cmds.len(), 24);
    for cmd in &cmds {
        let face = face_of(cmd).expect("solid blocks draw only cube faces");
        let (x, z, y) = (cmd.x as i64, cmd.z as i64, cmd.y as i64);
        let (nx, nz, ny) = match face {
            Face::Back => (x, z - 1, y),
            Face::Front => (x, z + 1, y),
            Face::Left => (x - 1, z, y),
            Face::Right => (x + 1, z, y),
            Face::Bottom => (x, z, y - 1),
            Face::Top => (x, z, y + 1),
        };
        let outside = nx < 0 || nx >= 2 || nz < 0 || nz >= 2 || ny < 0 || ny >= 2;
        assert!(outside, "an interior face was drawn");
    }
}

#[test]
fn entity_block_draws_exactly_two_quads_even_when_surrounded() {
    let mut chunk = Chunk::new(3, 3, 3);
    chunk.set_block(1, 1, 1, Block::Rose);
    let cmds = draw_chunk(&chunk);
    let center: Vec<&DrawCommand> =
        cmds.iter().filter(|c| (c.x, c.z, c.y) == (1, 1, 1)).collect();
    assert_eq!(center.len(), 2);
    assert_eq!(center[0].kind, DrawKind::EntityQuad { tile: 68, rotated: false });
    assert_eq!(center[1].kind, DrawKind::EntityQuad { tile: 68, rotated: true });
}

#[test]
fn two_adjacent_solid_blocks_share_no_face() {
    // One chunk of extent 2x2x1; the two cells at z == 0 stay solid, the
    // rest become air. The pair of faces between the two solid blocks
    // must not be drawn; everything else is, ten faces in all.
    let mut world = World::build(1, 1, 2, 2, 1);
    world.chunks[0][0].set_block(0, 1, 0, Block::Air);
    world.chunks[0][0].set_block(1, 1, 0, Block::Air);
    let cmds = draw_world(&world);
    assert_eq!(cmds.len(), 10);

    let at = |x: usize, face: Face| -> bool {
        cmds.iter().any(|c| c.x == x && c.z == 0 && c.y == 0 && face_of(c) == Some(face))
    };
    // The shared pair is culled.
    assert!(!at(0, Face::Right));
    assert!(!at(1, Face::Left));
    // Every other face of both blocks is drawn.
    for face in [Face::Back, Face::Front, Face::Bottom, Face::Top] {
        assert!(at(0, face));
        assert!(at(1, face));
    }
    assert!(at(0, Face::Left));
    assert!(at(1, Face::Right));
}

#[test]
fn world_traversal_is_row_major_and_carries_chunk_offsets() {
    let world = World::build(2, 2, 1, 1, 1);
    let cmds = draw_world(&world);
    // Four chunks of one solid cell each, six faces per cell.
    assert_eq!(cmds.len(), 24);
    let offsets: Vec<(usize, usize, usize)> = cmds
        .iter()
        .map(|c| (c.chunk_position.x, c.chunk_position.y, c.chunk_position.z))
        .collect();
    let mut expected = Vec::new();
    for r in 0..2 {
        for c in 0..2 {
            for _ in 0..6 {
                expected.push((c, r, 0));
            }
        }
    }
    assert_eq!(offsets, expected);
}
