//! The face-culling draw traversal.
//!
//! Walks every block of every chunk and turns the world into the ordered
//! list of draw commands a renderer must issue: per visible cube face one
//! [`DrawKind::CubeFace`] command, per entity block two
//! [`DrawKind::EntityQuad`] commands. A cube face is visible exactly when
//! the adjacent cell in its direction is not a solid block of the same
//! chunk; neighbors outside the chunk are never consulted, so faces on a
//! chunk boundary are always drawn.

use vstd::prelude::*;

use crate::block::{catalog, Block, BlockConfiguration};
use crate::world::{Chunk, Position, World};

verus! {

/// One of the six cube faces, in the fixed draw order.
#[derive(Clone, Copy, PartialEq, Eq, Structural, Debug)]
pub enum Face {
    Back,
    Front,
    Left,
    Right,
    Bottom,
    Top,
}

impl Face {
    /// Where this face's six vertices start in the shared cube vertex
    /// buffer (six vertices per face, faces laid out back, front, left,
    /// right, bottom, top).
    pub open spec fn vertex_offset_spec(self) -> int {
        match self {
            Face::Back => 0,
            Face::Front => 6,
            Face::Left => 12,
            Face::Right => 18,
            Face::Bottom => 24,
            Face::Top => 30,
        }
    }

    /// Returns the first vertex of this face in the cube vertex buffer.
    pub fn vertex_offset(&self) -> (o: usize)
        ensures
            o == self.vertex_offset_spec(),
    {
        match *self {
            Face::Back => 0,
            Face::Front => 6,
            Face::Left => 12,
            Face::Right => 18,
            Face::Bottom => 24,
            Face::Top => 30,
        }
    }

    /// Offset along the `x` axis of the cell this face looks at.
    pub open spec fn dx(self) -> int {
        match self {
            Face::Left => -1,
            Face::Right => 1,
            _ => 0,
        }
    }

    /// Offset along the `z` axis of the cell this face looks at.
    pub open spec fn dz(self) -> int {
        match self {
            Face::Back => -1,
            Face::Front => 1,
            _ => 0,
        }
    }

    /// Offset along the `y` axis of the cell this face looks at.
    pub open spec fn dy(self) -> int {
        match self {
            Face::Bottom => -1,
            Face::Top => 1,
            _ => 0,
        }
    }

    /// The tile this face takes from a block configuration.
    pub open spec fn tile_of(self, configuration: BlockConfiguration) -> i32 {
        match self {
            Face::Back => configuration.back,
            Face::Front => configuration.front,
            Face::Left => configuration.left,
            Face::Right => configuration.right,
            Face::Bottom => configuration.bottom,
            Face::Top => configuration.top,
        }
    }
}

/// What one draw command renders.
#[derive(Clone, Copy, PartialEq, Eq, Structural, Debug)]
pub enum DrawKind {
    /// One cube face, textured with the given atlas tile.
    CubeFace { face: Face, tile: i32 },
    /// One of the two crossed quads of an entity block; the second is the
    /// first rotated a quarter turn about the vertical axis, both pivoting
    /// through the cell center.
    EntityQuad { tile: i32, rotated: bool },
}

/// One draw call: the renderer translates by the chunk's world offset and
/// then by the cell coordinates, and renders `kind`.
#[derive(Clone, Copy, PartialEq, Eq, Structural, Debug)]
pub struct DrawCommand {
    pub chunk_position: Position,
    pub x: usize,
    pub z: usize,
    pub y: usize,
    pub kind: DrawKind,
}

/// Whether the cell `face` of `(x, z, y)` looks at is inside the chunk.
pub open spec fn neighbor_in_bounds(chunk: Chunk, x: int, z: int, y: int, face: Face) -> bool {
    chunk.in_bounds(x + face.dx(), z + face.dz(), y + face.dy())
}

/// Whether the cell `face` looks at holds a solid block of this chunk.
pub open spec fn occluded(chunk: Chunk, x: int, z: int, y: int, face: Face) -> bool {
    neighbor_in_bounds(chunk, x, z, y, face) && catalog(
        chunk.block_at_spec(x + face.dx(), z + face.dz(), y + face.dy()),
    ).is_solid
}

/// A face is visible unless a solid block of the same chunk occludes it;
/// cells outside the chunk never occlude, so boundary faces are always
/// visible.
pub open spec fn face_visible(chunk: Chunk, x: int, z: int, y: int, face: Face) -> bool {
    !occluded(chunk, x, z, y, face)
}

/// The command drawing `face` of the block in cell `(x, z, y)`.
pub open spec fn face_command(chunk: Chunk, x: int, z: int, y: int, face: Face) -> DrawCommand {
    DrawCommand {
        chunk_position: chunk.position,
        x: x as usize,
        z: z as usize,
        y: y as usize,
        kind: DrawKind::CubeFace {
            face,
            tile: face.tile_of(catalog(chunk.block_at_spec(x, z, y))),
        },
    }
}

/// The command sequence `face` of cell `(x, z, y)` contributes: its one
/// command when visible, nothing otherwise.
pub open spec fn maybe_face(chunk: Chunk, x: int, z: int, y: int, face: Face) -> Seq<
    DrawCommand,
> {
    if face_visible(chunk, x, z, y, face) {
        seq![face_command(chunk, x, z, y, face)]
    } else {
        Seq::empty()
    }
}

/// The two crossed-quad commands of an entity block, unrotated then
/// rotated, both textured with the configuration's front tile.
pub open spec fn entity_commands(chunk: Chunk, x: int, z: int, y: int) -> Seq<DrawCommand> {
    let tile = catalog(chunk.block_at_spec(x, z, y)).front;
    seq![
        DrawCommand {
            chunk_position: chunk.position,
            x: x as usize,
            z: z as usize,
            y: y as usize,
            kind: DrawKind::EntityQuad { tile, rotated: false },
        },
        DrawCommand {
            chunk_position: chunk.position,
            x: x as usize,
            z: z as usize,
            y: y as usize,
            kind: DrawKind::EntityQuad { tile, rotated: true },
        },
    ]
}

/// What the block in cell `(x, z, y)` emits: nothing for air, the two
/// crossed quads for an entity block, and otherwise one command per
/// visible face in the order back, front, left, right, bottom, top.
pub open spec fn cell_commands(chunk: Chunk, x: int, z: int, y: int) -> Seq<DrawCommand> {
    let block = chunk.block_at_spec(x, z, y);
    if block == Block::Air {
        Seq::empty()
    } else if catalog(block).is_entity {
        entity_commands(chunk, x, z, y)
    } else {
        maybe_face(chunk, x, z, y, Face::Back) + maybe_face(chunk, x, z, y, Face::Front)
            + maybe_face(chunk, x, z, y, Face::Left) + maybe_face(chunk, x, z, y, Face::Right)
            + maybe_face(chunk, x, z, y, Face::Bottom) + maybe_face(chunk, x, z, y, Face::Top)
    }
}

/// The commands of cells `(x, z, 0)` through `(x, z, y_end - 1)`.
pub open spec fn column_commands(chunk: Chunk, x: int, z: int, y_end: int) -> Seq<DrawCommand>
    decreases y_end,
{
    if y_end <= 0 {
        Seq::empty()
    } else {
        column_commands(chunk, x, z, y_end - 1) + cell_commands(chunk, x, z, y_end - 1)
    }
}

/// The commands of all full columns `(x, z)` for `z < z_end`.
pub open spec fn sheet_commands(chunk: Chunk, x: int, z_end: int) -> Seq<DrawCommand>
    decreases z_end,
{
    if z_end <= 0 {
        Seq::empty()
    } else {
        sheet_commands(chunk, x, z_end - 1) + column_commands(chunk, x, z_end - 1, chunk.depth as int)
    }
}

/// The commands of all full sheets `x < x_end`.
pub open spec fn chunk_commands_upto(chunk: Chunk, x_end: int) -> Seq<DrawCommand>
    decreases x_end,
{
    if x_end <= 0 {
        Seq::empty()
    } else {
        chunk_commands_upto(chunk, x_end - 1) + sheet_commands(chunk, x_end - 1, chunk.length as int)
    }
}

/// Everything one chunk emits, cells visited `x` outer, `z` middle,
/// `y` inner.
pub open spec fn chunk_commands(chunk: Chunk) -> Seq<DrawCommand> {
    chunk_commands_upto(chunk, chunk.width as int)
}

/// The commands of the first `c_end` chunks of one world row.
pub open spec fn row_commands_upto(row: Seq<Chunk>, c_end: int) -> Seq<DrawCommand>
    decreases c_end,
{
    if c_end <= 0 {
        Seq::empty()
    } else {
        row_commands_upto(row, c_end - 1) + chunk_commands(row[c_end - 1])
    }
}

/// The commands of the first `r_end` rows of the world.
pub open spec fn world_commands_upto(world: World, r_end: int) -> Seq<DrawCommand>
    decreases r_end,
{
    if r_end <= 0 {
        Seq::empty()
    } else {
        world_commands_upto(world, r_end - 1) + row_commands_upto(
            world.chunks@[r_end - 1]@,
            world.chunks@[r_end - 1]@.len() as int,
        )
    }
}

/// Everything the world emits, chunks visited row-major.
pub open spec fn world_commands(world: World) -> Seq<DrawCommand> {
    world_commands_upto(world, world.chunks@.len() as int)
}

/// Every cell of the chunk holds the same block kind.
pub open spec fn uniform_chunk(chunk: Chunk, kind: Block) -> bool {
    forall|x: int, z: int, y: int|
        chunk.in_bounds(x, z, y) ==> #[trigger] chunk.block_at_spec(x, z, y) == kind
}

/// The cell `face` of `(x, z, y)` looks at lies outside the chunk.
pub open spec fn on_chunk_boundary(chunk: Chunk, x: int, z: int, y: int, face: Face) -> bool {
    !neighbor_in_bounds(chunk, x, z, y, face)
}

/// The command draws a cube face whose neighboring cell lies outside the
/// chunk.
pub open spec fn is_boundary_face_command(chunk: Chunk, cmd: DrawCommand) -> bool {
    match cmd.kind {
        DrawKind::CubeFace { face, .. } => on_chunk_boundary(
            chunk,
            cmd.x as int,
            cmd.z as int,
            cmd.y as int,
            face,
        ),
        DrawKind::EntityQuad { .. } => false,
    }
}

/// Every command of the sequence draws a boundary cube face.
pub open spec fn all_boundary_faces(chunk: Chunk, cmds: Seq<DrawCommand>) -> bool {
    forall|i: int| 0 <= i < cmds.len() ==> is_boundary_face_command(chunk, #[trigger] cmds[i])
}

proof fn lemma_concat_contains(a: Seq<DrawCommand>, b: Seq<DrawCommand>, cmd: DrawCommand)
    requires
        a.contains(cmd) || b.contains(cmd),
    ensures
        (a + b).contains(cmd),
{
    if a.contains(cmd) {
        let i = choose|i: int| 0 <= i < a.len() && a[i] == cmd;
        assert((a + b)[i] == cmd);
    } else {
        let i = choose|i: int| 0 <= i < b.len() && b[i] == cmd;
        assert((a + b)[a.len() + i] == cmd);
    }
}

proof fn lemma_all_boundary_concat(chunk: Chunk, a: Seq<DrawCommand>, b: Seq<DrawCommand>)
    requires
        all_boundary_faces(chunk, a),
        all_boundary_faces(chunk, b),
    ensures
        all_boundary_faces(chunk, a + b),
{
    assert forall|i: int| 0 <= i < (a + b).len() implies is_boundary_face_command(
        chunk,
        (a + b)[i],
    ) by {
        if i < a.len() {
            assert((a + b)[i] == a[i]);
        } else {
            assert((a + b)[i] == b[i - a.len()]);
        }
    }
}

proof fn lemma_solid_maybe_face_boundary(
    chunk: Chunk,
    kind: Block,
    x: int,
    z: int,
    y: int,
    face: Face,
)
    requires
        uniform_chunk(chunk, kind),
        catalog(kind).is_solid,
        chunk.in_bounds(x, z, y),
    ensures
        all_boundary_faces(chunk, maybe_face(chunk, x, z, y, face)),
{
    if face_visible(chunk, x, z, y, face) {
        if neighbor_in_bounds(chunk, x, z, y, face) {
            assert(chunk.block_at_spec(x + face.dx(), z + face.dz(), y + face.dy()) == kind);
            assert(occluded(chunk, x, z, y, face));
        }
        assert(on_chunk_boundary(chunk, x, z, y, face));
    }
}

proof fn lemma_solid_cell_all_boundary(chunk: Chunk, kind: Block, x: int, z: int, y: int)
    requires
        uniform_chunk(chunk, kind),
        catalog(kind).is_solid,
        chunk.in_bounds(x, z, y),
    ensures
        all_boundary_faces(chunk, cell_commands(chunk, x, z, y)),
{
    crate::block::lemma_catalog_entity_solid_exclusive(kind);
    assert(chunk.block_at_spec(x, z, y) == kind);
    let m1 = maybe_face(chunk, x, z, y, Face::Back);
    let m2 = maybe_face(chunk, x, z, y, Face::Front);
    let m3 = maybe_face(chunk, x, z, y, Face::Left);
    let m4 = maybe_face(chunk, x, z, y, Face::Right);
    let m5 = maybe_face(chunk, x, z, y, Face::Bottom);
    let m6 = maybe_face(chunk, x, z, y, Face::Top);
    lemma_solid_maybe_face_boundary(chunk, kind, x, z, y, Face::Back);
    lemma_solid_maybe_face_boundary(chunk, kind, x, z, y, Face::Front);
    lemma_solid_maybe_face_boundary(chunk, kind, x, z, y, Face::Left);
    lemma_solid_maybe_face_boundary(chunk, kind, x, z, y, Face::Right);
    lemma_solid_maybe_face_boundary(chunk, kind, x, z, y, Face::Bottom);
    lemma_solid_maybe_face_boundary(chunk, kind, x, z, y, Face::Top);
    lemma_all_boundary_concat(chunk, m1, m2);
    lemma_all_boundary_concat(chunk, m1 + m2, m3);
    lemma_all_boundary_concat(chunk, m1 + m2 + m3, m4);
    lemma_all_boundary_concat(chunk, m1 + m2 + m3 + m4, m5);
    lemma_all_boundary_concat(chunk, m1 + m2 + m3 + m4 + m5, m6);
}

proof fn lemma_solid_column_all_boundary(chunk: Chunk, kind: Block, x: int, z: int, y_end: int)
    requires
        uniform_chunk(chunk, kind),
        catalog(kind).is_solid,
        0 <= x < chunk.width,
        0 <= z < chunk.length,
        y_end <= chunk.depth,
    ensures
        all_boundary_faces(chunk, column_commands(chunk, x, z, y_end)),
    decreases y_end,
{
    if y_end > 0 {
        lemma_solid_column_all_boundary(chunk, kind, x, z, y_end - 1);
        lemma_solid_cell_all_boundary(chunk, kind, x, z, y_end - 1);
        lemma_all_boundary_concat(
            chunk,
            column_commands(chunk, x, z, y_end - 1),
            cell_commands(chunk, x, z, y_end - 1),
        );
    }
}

proof fn lemma_solid_sheet_all_boundary(chunk: Chunk, kind: Block, x: int, z_end: int)
    requires
        uniform_chunk(chunk, kind),
        catalog(kind).is_solid,
        0 <= x < chunk.width,
        z_end <= chunk.length,
    ensures
        all_boundary_faces(chunk, sheet_commands(chunk, x, z_end)),
    decreases z_end,
{
    if z_end > 0 {
        lemma_solid_sheet_all_boundary(chunk, kind, x, z_end - 1);
        lemma_solid_column_all_boundary(chunk, kind, x, z_end - 1, chunk.depth as int);
        lemma_all_boundary_concat(
            chunk,
            sheet_commands(chunk, x, z_end - 1),
            column_commands(chunk, x, z_end - 1, chunk.depth as int),
        );
    }
}

/// A chunk of nothing but one solid block kind emits no interior face:
/// every command it emits is a cube face whose neighboring cell lies
/// outside the chunk. Faces between two solid neighbors are never drawn.
pub proof fn lemma_solid_chunk_no_interior_faces(chunk: Chunk, kind: Block)
    requires
        uniform_chunk(chunk, kind),
        catalog(kind).is_solid,
    ensures
        all_boundary_faces(chunk, chunk_commands(chunk)),
{
    lemma_solid_upto_all_boundary(chunk, kind, chunk.width as int);
}

proof fn lemma_solid_upto_all_boundary(chunk: Chunk, kind: Block, x_end: int)
    requires
        uniform_chunk(chunk, kind),
        catalog(kind).is_solid,
        x_end <= chunk.width,
    ensures
        all_boundary_faces(chunk, chunk_commands_upto(chunk, x_end)),
    decreases x_end,
{
    if x_end > 0 {
        lemma_solid_upto_all_boundary(chunk, kind, x_end - 1);
        lemma_solid_sheet_all_boundary(chunk, kind, x_end - 1, chunk.length as int);
        lemma_all_boundary_concat(
            chunk,
            chunk_commands_upto(chunk, x_end - 1),
            sheet_commands(chunk, x_end - 1, chunk.length as int),
        );
    }
}

proof fn lemma_column_contains(chunk: Chunk, x: int, z: int, y: int, y_end: int, cmd: DrawCommand)
    requires
        0 <= y < y_end,
        cell_commands(chunk, x, z, y).contains(cmd),
    ensures
        column_commands(chunk, x, z, y_end).contains(cmd),
    decreases y_end,
{
    if y == y_end - 1 {
        lemma_concat_contains(
            column_commands(chunk, x, z, y_end - 1),
            cell_commands(chunk, x, z, y_end - 1),
            cmd,
        );
    } else {
        lemma_column_contains(chunk, x, z, y, y_end - 1, cmd);
        lemma_concat_contains(
            column_commands(chunk, x, z, y_end - 1),
            cell_commands(chunk, x, z, y_end - 1),
            cmd,
        );
    }
}

proof fn lemma_sheet_contains(chunk: Chunk, x: int, z: int, z_end: int, cmd: DrawCommand)
    requires
        0 <= z < z_end,
        column_commands(chunk, x, z, chunk.depth as int).contains(cmd),
    ensures
        sheet_commands(chunk, x, z_end).contains(cmd),
    decreases z_end,
{
    if z < z_end - 1 {
        lemma_sheet_contains(chunk, x, z, z_end - 1, cmd);
    }
    lemma_concat_contains(
        sheet_commands(chunk, x, z_end - 1),
        column_commands(chunk, x, z_end - 1, chunk.depth as int),
        cmd,
    );
}

proof fn lemma_upto_contains(chunk: Chunk, x: int, x_end: int, cmd: DrawCommand)
    requires
        0 <= x < x_end,
        sheet_commands(chunk, x, chunk.length as int).contains(cmd),
    ensures
        chunk_commands_upto(chunk, x_end).contains(cmd),
    decreases x_end,
{
    if x < x_end - 1 {
        lemma_upto_contains(chunk, x, x_end - 1, cmd);
    }
    lemma_concat_contains(
        chunk_commands_upto(chunk, x_end - 1),
        sheet_commands(chunk, x_end - 1, chunk.length as int),
        cmd,
    );
}

/// Whatever a cell emits, the chunk's traversal emits too.
pub proof fn lemma_chunk_contains_cell_commands(
    chunk: Chunk,
    x: int,
    z: int,
    y: int,
    cmd: DrawCommand,
)
    requires
        chunk.in_bounds(x, z, y),
        cell_commands(chunk, x, z, y).contains(cmd),
    ensures
        chunk_commands(chunk).contains(cmd),
{
    lemma_column_contains(chunk, x, z, y, chunk.depth as int, cmd);
    lemma_sheet_contains(chunk, x, z, chunk.length as int, cmd);
    lemma_upto_contains(chunk, x, chunk.width as int, cmd);
}

/// In a chunk of nothing but one solid block kind, every face whose
/// neighboring cell lies outside the chunk is drawn: every boundary cell
/// draws all of its boundary faces.
pub proof fn lemma_solid_chunk_emits_boundary_face(
    chunk: Chunk,
    kind: Block,
    x: int,
    z: int,
    y: int,
    face: Face,
)
    requires
        uniform_chunk(chunk, kind),
        catalog(kind).is_solid,
        chunk.in_bounds(x, z, y),
        on_chunk_boundary(chunk, x, z, y, face),
    ensures
        chunk_commands(chunk).contains(face_command(chunk, x, z, y, face)),
{
    crate::block::lemma_catalog_entity_solid_exclusive(kind);
    assert(chunk.block_at_spec(x, z, y) == kind);
    let cmd = face_command(chunk, x, z, y, face);
    let m1 = maybe_face(chunk, x, z, y, Face::Back);
    let m2 = maybe_face(chunk, x, z, y, Face::Front);
    let m3 = maybe_face(chunk, x, z, y, Face::Left);
    let m4 = maybe_face(chunk, x, z, y, Face::Right);
    let m5 = maybe_face(chunk, x, z, y, Face::Bottom);
    let m6 = maybe_face(chunk, x, z, y, Face::Top);
    assert(cell_commands(chunk, x, z, y) == m1 + m2 + m3 + m4 + m5 + m6);
    assert(maybe_face(chunk, x, z, y, face)[0] == cmd);
    match face {
        Face::Back => {
            assert((m1 + m2 + m3 + m4 + m5 + m6)[0] == cmd);
        },
        Face::Front => {
            assert((m1 + m2 + m3 + m4 + m5 + m6)[m1.len() as int] == cmd);
        },
        Face::Left => {
            assert((m1 + m2 + m3 + m4 + m5 + m6)[(m1.len() + m2.len()) as int] == cmd);
        },
        Face::Right => {
            assert((m1 + m2 + m3 + m4 + m5 + m6)[(m1.len() + m2.len() + m3.len()) as int] == cmd);
        },
        Face::Bottom => {
            assert((m1 + m2 + m3 + m4 + m5 + m6)[(m1.len() + m2.len() + m3.len()
                + m4.len()) as int] == cmd);
        },
        Face::Top => {
            assert((m1 + m2 + m3 + m4 + m5 + m6)[(m1.len() + m2.len() + m3.len() + m4.len()
                + m5.len()) as int] == cmd);
        },
    }
    assert(cell_commands(chunk, x, z, y).contains(cmd));
    lemma_chunk_contains_cell_commands(chunk, x, z, y, cmd);
}

proof fn lemma_air_column_empty(chunk: Chunk, x: int, z: int, y_end: int)
    requires
        uniform_chunk(chunk, Block::Air),
        0 <= x < chunk.width,
        0 <= z < chunk.length,
        y_end <= chunk.depth,
    ensures
        column_commands(chunk, x, z, y_end) =~= Seq::<DrawCommand>::empty(),
    decreases y_end,
{
    if y_end > 0 {
        lemma_air_column_empty(chunk, x, z, y_end - 1);
        assert(chunk.block_at_spec(x, z, y_end - 1) == Block::Air);
    }
}

proof fn lemma_air_sheet_empty(chunk: Chunk, x: int, z_end: int)
    requires
        uniform_chunk(chunk, Block::Air),
        0 <= x < chunk.width,
        z_end <= chunk.length,
    ensures
        sheet_commands(chunk, x, z_end) =~= Seq::<DrawCommand>::empty(),
    decreases z_end,
{
    if z_end > 0 {
        lemma_air_sheet_empty(chunk, x, z_end - 1);
        lemma_air_column_empty(chunk, x, z_end - 1, chunk.depth as int);
    }
}

/// A chunk of nothing but air emits no draw command at all; air cells
/// render nothing, yet the traversal still visits everything after them.
pub proof fn lemma_air_chunk_emits_nothing(chunk: Chunk)
    requires
        uniform_chunk(chunk, Block::Air),
    ensures
        chunk_commands(chunk) =~= Seq::<DrawCommand>::empty(),
{
    lemma_air_upto_empty(chunk, chunk.width as int);
}

proof fn lemma_air_upto_empty(chunk: Chunk, x_end: int)
    requires
        uniform_chunk(chunk, Block::Air),
        x_end <= chunk.width,
    ensures
        chunk_commands_upto(chunk, x_end) =~= Seq::<DrawCommand>::empty(),
    decreases x_end,
{
    if x_end > 0 {
        lemma_air_upto_empty(chunk, x_end - 1);
        lemma_air_sheet_empty(chunk, x_end - 1, chunk.length as int);
    }
}

/// An entity block emits exactly its two crossed quads, whatever its
/// neighbors hold: first the unrotated quad, then the rotated one, both
/// textured with the configuration's front tile.
pub proof fn lemma_entity_cell_emits_two_quads(chunk: Chunk, x: int, z: int, y: int)
    requires
        catalog(chunk.block_at_spec(x, z, y)).is_entity,
    ensures
        cell_commands(chunk, x, z, y) == entity_commands(chunk, x, z, y),
        cell_commands(chunk, x, z, y).len() == 2,
        cell_commands(chunk, x, z, y)[0].kind == (DrawKind::EntityQuad {
            tile: catalog(chunk.block_at_spec(x, z, y)).front,
            rotated: false,
        }),
        cell_commands(chunk, x, z, y)[1].kind == (DrawKind::EntityQuad {
            tile: catalog(chunk.block_at_spec(x, z, y)).front,
            rotated: true,
        }),
{
    assert(chunk.block_at_spec(x, z, y) != Block::Air);
}

/// Both quads of an in-bounds entity block appear in the chunk's output.
pub proof fn lemma_entity_cell_quads_emitted(chunk: Chunk, x: int, z: int, y: int)
    requires
        chunk.in_bounds(x, z, y),
        catalog(chunk.block_at_spec(x, z, y)).is_entity,
    ensures
        chunk_commands(chunk).contains(entity_commands(chunk, x, z, y)[0]),
        chunk_commands(chunk).contains(entity_commands(chunk, x, z, y)[1]),
{
    lemma_entity_cell_emits_two_quads(chunk, x, z, y);
    assert(cell_commands(chunk, x, z, y).contains(entity_commands(chunk, x, z, y)[0]));
    assert(cell_commands(chunk, x, z, y).contains(entity_commands(chunk, x, z, y)[1]));
    lemma_chunk_contains_cell_commands(chunk, x, z, y, entity_commands(chunk, x, z, y)[0]);
    lemma_chunk_contains_cell_commands(chunk, x, z, y, entity_commands(chunk, x, z, y)[1]);
}

/// Reports whether the block `face` of `(x, z, y)` looks at is a solid
/// block of the same chunk.
fn neighbor_solid(chunk: &Chunk, x: usize, z: usize, y: usize, face: Face) -> (s: bool)
    requires
        chunk.wf(),
        chunk.in_bounds(x as int, z as int, y as int),
    ensures
        s == occluded(*chunk, x as int, z as int, y as int, face),
{
    match face {
        Face::Back => z >= 1 && chunk.block_at(x, z - 1, y).configuration().is_solid,
        Face::Front => z + 1 < chunk.length && chunk.block_at(x, z + 1, y).configuration().is_solid,
        Face::Left => x >= 1 && chunk.block_at(x - 1, z, y).configuration().is_solid,
        Face::Right => x + 1 < chunk.width && chunk.block_at(x + 1, z, y).configuration().is_solid,
        Face::Bottom => y >= 1 && chunk.block_at(x, z, y - 1).configuration().is_solid,
        Face::Top => y + 1 < chunk.depth && chunk.block_at(x, z, y + 1).configuration().is_solid,
    }
}

/// Appends `face`'s command when it is visible.
fn push_face_if_visible(
    cmds: &mut Vec<DrawCommand>,
    chunk: &Chunk,
    x: usize,
    z: usize,
    y: usize,
    face: Face,
    tile: i32,
)
    requires
        chunk.wf(),
        chunk.in_bounds(x as int, z as int, y as int),
        tile == face.tile_of(catalog(chunk.block_at_spec(x as int, z as int, y as int))),
    ensures
        final(cmds)@ == old(cmds)@ + maybe_face(*chunk, x as int, z as int, y as int, face),
{
    let solid = neighbor_solid(chunk, x, z, y, face);
    if !solid {
        cmds.push(
            DrawCommand {
                chunk_position: chunk.position,
                x,
                z,
                y,
                kind: DrawKind::CubeFace { face, tile },
            },
        );
    }
}

/// Appends everything the block in cell `(x, z, y)` emits.
fn push_cell_commands(cmds: &mut Vec<DrawCommand>, chunk: &Chunk, x: usize, z: usize, y: usize)
    requires
        chunk.wf(),
        chunk.in_bounds(x as int, z as int, y as int),
    ensures
        final(cmds)@ == old(cmds)@ + cell_commands(*chunk, x as int, z as int, y as int),
{
    let block = chunk.block_at(x, z, y);
    if block == Block::Air {
        assert(cmds@ =~= cmds@ + Seq::<DrawCommand>::empty());
        return ;
    }
    let configuration = block.configuration();
    if configuration.is_entity {
        cmds.push(
            DrawCommand {
                chunk_position: chunk.position,
                x,
                z,
                y,
                kind: DrawKind::EntityQuad { tile: configuration.front, rotated: false },
            },
        );
        cmds.push(
            DrawCommand {
                chunk_position: chunk.position,
                x,
                z,
                y,
                kind: DrawKind::EntityQuad { tile: configuration.front, rotated: true },
            },
        );
        assert(cmds@ =~= old(cmds)@ + cell_commands(*chunk, x as int, z as int, y as int));
    } else {
        push_face_if_visible(cmds, chunk, x, z, y, Face::Back, configuration.back);
        push_face_if_visible(cmds, chunk, x, z, y, Face::Front, configuration.front);
        push_face_if_visible(cmds, chunk, x, z, y, Face::Left, configuration.left);
        push_face_if_visible(cmds, chunk, x, z, y, Face::Right, configuration.right);
        push_face_if_visible(cmds, chunk, x, z, y, Face::Bottom, configuration.bottom);
        push_face_if_visible(cmds, chunk, x, z, y, Face::Top, configuration.top);
        assert(cmds@ =~= old(cmds)@ + cell_commands(*chunk, x as int, z as int, y as int));
    }
}

/// Emits everything one chunk draws, in traversal order.
pub fn draw_chunk(chunk: &Chunk) -> (cmds: Vec<DrawCommand>)
    requires
        chunk.wf(),
    ensures
        cmds@ == chunk_commands(*chunk),
{
    let mut cmds: Vec<DrawCommand> = Vec::new();
    let mut x: usize = 0;
    while x < chunk.width
        invariant
            chunk.wf(),
            x <= chunk.width,
            cmds@ == chunk_commands_upto(*chunk, x as int),
        decreases chunk.width - x,
    {
        let mut z: usize = 0;
        while z < chunk.length
            invariant
                chunk.wf(),
                x < chunk.width,
                z <= chunk.length,
                cmds@ == chunk_commands_upto(*chunk, x as int) + sheet_commands(
                    *chunk,
                    x as int,
                    z as int,
                ),
            decreases chunk.length - z,
        {
            let mut y: usize = 0;
            while y < chunk.depth
                invariant
                    chunk.wf(),
                    x < chunk.width,
                    z < chunk.length,
                    y <= chunk.depth,
                    cmds@ == chunk_commands_upto(*chunk, x as int) + sheet_commands(
                        *chunk,
                        x as int,
                        z as int,
                    ) + column_commands(*chunk, x as int, z as int, y as int),
                decreases chunk.depth - y,
            {
                push_cell_commands(&mut cmds, chunk, x, z, y);
                y = y + 1;
                assert(cmds@ =~= chunk_commands_upto(*chunk, x as int) + sheet_commands(
                    *chunk,
                    x as int,
                    z as int,
                ) + column_commands(*chunk, x as int, z as int, y as int));
            }
            z = z + 1;
            assert(cmds@ =~= chunk_commands_upto(*chunk, x as int) + sheet_commands(
                *chunk,
                x as int,
                z as int,
            ));
        }
        x = x + 1;
        assert(cmds@ =~= chunk_commands_upto(*chunk, x as int));
    }
    cmds
}

/// Emits everything the world draws: chunks row-major, and inside each
/// chunk the cells `x` outer, `z` middle, `y` inner. Air cells emit
/// nothing but never cut the traversal short.
pub fn draw_world(world: &World) -> (cmds: Vec<DrawCommand>)
    requires
        world.wf(),
    ensures
        cmds@ == world_commands(*world),
{
    let mut cmds: Vec<DrawCommand> = Vec::new();
    let rows = world.chunks.len();
    let mut r: usize = 0;
    while r < rows
        invariant
            world.wf(),
            rows == world.chunks@.len(),
            r <= rows,
            cmds@ == world_commands_upto(*world, r as int),
        decreases rows - r,
    {
        let row = &world.chunks[r];
        let columns = row.len();
        let mut c: usize = 0;
        while c < columns
            invariant
                world.wf(),
                rows == world.chunks@.len(),
                r < rows,
                row == &world.chunks@[r as int],
                columns == row@.len(),
                c <= columns,
                cmds@ == world_commands_upto(*world, r as int) + row_commands_upto(
                    row@,
                    c as int,
                ),
            decreases columns - c,
        {
            let chunk = &row[c];
            let mut chunk_cmds = draw_chunk(chunk);
            cmds.append(&mut chunk_cmds);
            c = c + 1;
            assert(cmds@ =~= world_commands_upto(*world, r as int) + row_commands_upto(
                row@,
                c as int,
            ));
        }
        r = r + 1;
        assert(cmds@ =~= world_commands_upto(*world, r as int));
    }
    cmds
}

} // verus!
