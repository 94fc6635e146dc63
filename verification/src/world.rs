//! Chunks and the world: fixed-size 3-D grids of blocks arranged in a 2-D
//! grid of chunks, each chunk at a deterministic world-space offset.
//!
//! A chunk stores its blocks in a flat buffer indexed by
//! `(x * length + z) * depth + y`: `x` is the outer axis, `z` the middle
//! one and `y` the inner (vertical) one, matching the draw traversal's
//! loop nesting.

use vstd::prelude::*;

use crate::block::Block;

verus! {

/// Cells along a chunk's `x` axis.
pub const CHUNK_WIDTH: usize = 4;

/// Cells along a chunk's `z` axis.
pub const CHUNK_LENGTH: usize = 4;

/// Cells along a chunk's `y` (vertical) axis.
pub const CHUNK_DEPTH: usize = 8;

/// Chunks per world row.
pub const WORLD_WIDTH: usize = 4;

/// Rows of chunks in the world.
pub const WORLD_LENGTH: usize = 4;

/// A world-space offset, in cell-size multiples.
#[derive(Clone, Copy, PartialEq, Eq, Structural, Debug)]
pub struct Position {
    pub x: usize,
    pub y: usize,
    pub z: usize,
}

/// A fixed-size 3-D grid of blocks at a world-space offset.
pub struct Chunk {
    pub position: Position,
    pub blocks: Vec<Block>,
    pub width: usize,
    pub length: usize,
    pub depth: usize,
}

/// The flat buffer holds `0 <= (x * length + z) * depth + y < width * length * depth`
/// for cell coordinates `0 <= x < width`, `0 <= z < length`, `0 <= y < depth`,
/// together with bounds on every intermediate product.
pub proof fn lemma_flat_index_bound(x: int, z: int, y: int, width: int, length: int, depth: int)
    requires
        0 <= x < width,
        0 <= z < length,
        0 <= y < depth,
    ensures
        x * length + z < width * length,
        0 <= (x * length + z) * depth + y < width * length * depth,
        width * length <= width * length * depth,
{
    assert(x * length + z < width * length && 0 <= (x * length + z) * depth + y < width * length
        * depth && width * length <= width * length * depth) by (nonlinear_arith)
        requires
            0 <= x < width,
            0 <= z < length,
            0 <= y < depth,
    ;
}

impl Chunk {
    /// The chunk's backing buffer covers exactly its extent.
    pub open spec fn wf(self) -> bool {
        self.blocks@.len() == self.width * self.length * self.depth
    }

    /// Whether `(x, z, y)` is a cell of this chunk.
    pub open spec fn in_bounds(self, x: int, z: int, y: int) -> bool {
        0 <= x < self.width && 0 <= z < self.length && 0 <= y < self.depth
    }

    /// Position of cell `(x, z, y)` in the flat backing buffer.
    pub open spec fn flat_index(self, x: int, z: int, y: int) -> int {
        flat_index_of(x, z, y, self.length as int, self.depth as int)
    }

    /// The block in cell `(x, z, y)`.
    pub open spec fn block_at_spec(self, x: int, z: int, y: int) -> Block {
        self.blocks@[self.flat_index(x, z, y)]
    }

    /// Allocates a chunk of the given extent at offset zero, every cell
    /// holding the default block kind.
    pub fn new(width: usize, length: usize, depth: usize) -> (c: Chunk)
        requires
            width * length <= usize::MAX,
            width * length * depth <= usize::MAX,
        ensures
            c.wf(),
            c.width == width,
            c.length == length,
            c.depth == depth,
            c.position == (Position { x: 0, y: 0, z: 0 }),
            c.blocks@ == Seq::new((width * length * depth) as nat, |i: int| Block::Dirt),
    {
        let area = width * length;
        let total = area * depth;
        let mut blocks: Vec<Block> = Vec::new();
        let mut i: usize = 0;
        while i < total
            invariant
                i <= total,
                blocks@ =~= Seq::new(i as nat, |k: int| Block::Dirt),
            decreases total - i,
        {
            blocks.push(Block::Dirt);
            i = i + 1;
        }
        assert(blocks@ =~= Seq::new((width * length * depth) as nat, |k: int| Block::Dirt));
        Chunk { position: Position { x: 0, y: 0, z: 0 }, blocks, width, length, depth }
    }

    /// Whether this chunk has the reference extent and default contents.
    pub open spec fn is_default_spec(self) -> bool {
        &&& self.wf()
        &&& self.width == CHUNK_WIDTH
        &&& self.length == CHUNK_LENGTH
        &&& self.depth == CHUNK_DEPTH
        &&& self.position == (Position { x: 0, y: 0, z: 0 })
        &&& self.blocks@ == Seq::new(
            (CHUNK_WIDTH * CHUNK_LENGTH * CHUNK_DEPTH) as nat,
            |i: int| Block::Dirt,
        )
    }

    /// Reads the block in cell `(x, z, y)`.
    pub fn block_at(&self, x: usize, z: usize, y: usize) -> (b: Block)
        requires
            self.wf(),
            self.in_bounds(x as int, z as int, y as int),
        ensures
            b == self.block_at_spec(x as int, z as int, y as int),
    {
        proof {
            lemma_flat_index_bound(
                x as int,
                z as int,
                y as int,
                self.width as int,
                self.length as int,
                self.depth as int,
            );
        }
        let total = self.blocks.len();
        assert(total == self.width * self.length * self.depth);
        self.blocks[(x * self.length + z) * self.depth + y]
    }

    /// Replaces the block in cell `(x, z, y)`, leaving every other cell
    /// and the chunk's extent and offset unchanged.
    pub fn set_block(&mut self, x: usize, z: usize, y: usize, b: Block)
        requires
            old(self).wf(),
            old(self).in_bounds(x as int, z as int, y as int),
        ensures
            final(self).wf(),
            final(self).width == old(self).width,
            final(self).length == old(self).length,
            final(self).depth == old(self).depth,
            final(self).position == old(self).position,
            final(self).blocks@ == old(self).blocks@.update(
                old(self).flat_index(x as int, z as int, y as int),
                b,
            ),
            final(self).block_at_spec(x as int, z as int, y as int) == b,
            forall|xo: int, zo: int, yo: int|
                old(self).in_bounds(xo, zo, yo) && !(xo == x && zo == z && yo == y)
                    ==> final(self).block_at_spec(xo, zo, yo) == old(self).block_at_spec(
                    xo,
                    zo,
                    yo,
                ),
    {
        proof {
            lemma_flat_index_bound(
                x as int,
                z as int,
                y as int,
                self.width as int,
                self.length as int,
                self.depth as int,
            );
        }
        let total = self.blocks.len();
        assert(total == self.width * self.length * self.depth);
        let index = (x * self.length + z) * self.depth + y;
        self.blocks.set(index, b);
        proof {
            assert forall|xo: int, zo: int, yo: int|
                old(self).in_bounds(xo, zo, yo) && !(xo == x && zo == z && yo == y)
                    implies self.block_at_spec(xo, zo, yo) == old(self).block_at_spec(
                xo,
                zo,
                yo,
            ) by {
                lemma_flat_index_injective(
                    xo,
                    zo,
                    yo,
                    x as int,
                    z as int,
                    y as int,
                    self.length as int,
                    self.depth as int,
                );
                lemma_flat_index_bound(
                    xo,
                    zo,
                    yo,
                    self.width as int,
                    self.length as int,
                    self.depth as int,
                );
            }
        }
    }
}

impl Default for Chunk {
    /// A chunk of the reference extent at offset zero, every cell holding
    /// the default block kind.
    fn default() -> (c: Chunk)
        ensures
            c.is_default_spec(),
    {
        Chunk::new(CHUNK_WIDTH, CHUNK_LENGTH, CHUNK_DEPTH)
    }
}

/// Distinct in-bounds cells map to distinct flat-buffer positions.
pub proof fn lemma_flat_index_injective(
    x1: int,
    z1: int,
    y1: int,
    x2: int,
    z2: int,
    y2: int,
    length: int,
    depth: int,
)
    requires
        0 <= x1,
        0 <= z1 < length,
        0 <= y1 < depth,
        0 <= x2,
        0 <= z2 < length,
        0 <= y2 < depth,
        !(x1 == x2 && z1 == z2 && y1 == y2),
    ensures
        flat_index_of(x1, z1, y1, length, depth) != flat_index_of(x2, z2, y2, length, depth),
{
    assert((x1 * length + z1) * depth + y1 != (x2 * length + z2) * depth + y2) by (nonlinear_arith)
        requires
            0 <= x1,
            0 <= z1 < length,
            0 <= y1 < depth,
            0 <= x2,
            0 <= z2 < length,
            0 <= y2 < depth,
            !(x1 == x2 && z1 == z2 && y1 == y2),
    ;
}

/// The flat-buffer position of cell `(x, z, y)` in a chunk of the given
/// length and depth.
pub open spec fn flat_index_of(x: int, z: int, y: int, length: int, depth: int) -> int {
    (x * length + z) * depth + y
}

/// A chunk as `World::build` places it at grid cell `(row, column)`:
/// default-filled, with the given extent, at world offset
/// `(column * width, row * length, 0)`.
pub open spec fn built_chunk(
    chunk: Chunk,
    row: int,
    column: int,
    width: int,
    length: int,
    depth: int,
) -> bool {
    &&& chunk.width == width
    &&& chunk.length == length
    &&& chunk.depth == depth
    &&& chunk.position.x == column * width
    &&& chunk.position.y == row * length
    &&& chunk.position.z == 0
    &&& chunk.blocks@ == Seq::new((width * length * depth) as nat, |i: int| Block::Dirt)
}

/// A fixed 2-D grid of chunks.
pub struct World {
    pub chunks: Vec<Vec<Chunk>>,
}

impl World {
    /// Every chunk's backing buffer covers its extent.
    pub open spec fn wf(self) -> bool {
        forall|r: int, c: int|
            0 <= r < self.chunks@.len() && 0 <= c < self.chunks@[r]@.len()
                ==> (#[trigger] self.chunks@[r]@[c]).wf()
    }

    /// Allocates `rows * columns` default-filled chunks of the given
    /// extent, chunk `(row, column)` placed at world offset
    /// `(column * chunk_width, row * chunk_length, 0)`.
    pub fn build(
        rows: usize,
        columns: usize,
        chunk_width: usize,
        chunk_length: usize,
        chunk_depth: usize,
    ) -> (w: World)
        requires
            chunk_width * chunk_length <= usize::MAX,
            chunk_width * chunk_length * chunk_depth <= usize::MAX,
            columns * chunk_width <= usize::MAX,
            rows * chunk_length <= usize::MAX,
        ensures
            w.wf(),
            w.chunks@.len() == rows,
            forall|r: int| 0 <= r < rows ==> (#[trigger] w.chunks@[r])@.len() == columns,
            forall|r: int, c: int|
                0 <= r < rows && 0 <= c < columns ==> built_chunk(
                    #[trigger] w.chunks@[r]@[c],
                    r,
                    c,
                    chunk_width as int,
                    chunk_length as int,
                    chunk_depth as int,
                ),
    {
        let mut chunks: Vec<Vec<Chunk>> = Vec::new();
        let mut row: usize = 0;
        while row < rows
            invariant
                row <= rows,
                chunks@.len() == row,
                chunk_width * chunk_length <= usize::MAX,
                chunk_width * chunk_length * chunk_depth <= usize::MAX,
                columns * chunk_width <= usize::MAX,
                rows * chunk_length <= usize::MAX,
                forall|r: int| 0 <= r < row ==> (#[trigger] chunks@[r])@.len() == columns,
                forall|r: int, c: int|
                    0 <= r < row && 0 <= c < columns ==> built_chunk(
                        #[trigger] chunks@[r]@[c],
                        r,
                        c,
                        chunk_width as int,
                        chunk_length as int,
                        chunk_depth as int,
                    ),
            decreases rows - row,
        {
            let mut chunk_row: Vec<Chunk> = Vec::new();
            let mut column: usize = 0;
            while column < columns
                invariant
                    column <= columns,
                    row < rows,
                    chunk_row@.len() == column,
                    chunk_width * chunk_length <= usize::MAX,
                    chunk_width * chunk_length * chunk_depth <= usize::MAX,
                    columns * chunk_width <= usize::MAX,
                    rows * chunk_length <= usize::MAX,
                    forall|c: int|
                        0 <= c < column ==> built_chunk(
                            #[trigger] chunk_row@[c],
                            row as int,
                            c,
                            chunk_width as int,
                            chunk_length as int,
                            chunk_depth as int,
                        ),
                decreases columns - column,
            {
                let mut chunk = Chunk::new(chunk_width, chunk_length, chunk_depth);
                assert(column * chunk_width <= columns * chunk_width && row * chunk_length <= rows
                    * chunk_length) by (nonlinear_arith)
                    requires
                        column < columns,
                        row < rows,
                        chunk_width >= 0,
                        chunk_length >= 0,
                ;
                chunk.position = Position { x: column * chunk_width, y: row * chunk_length, z: 0 };
                chunk_row.push(chunk);
                column = column + 1;
            }
            chunks.push(chunk_row);
            row = row + 1;
        }
        World { chunks }
    }

    /// Builds the reference world: a `WORLD_LENGTH` by `WORLD_WIDTH` grid
    /// of default-filled chunks of the reference extent.
    pub fn new() -> (w: World)
        ensures
            w.wf(),
            w.chunks@.len() == WORLD_LENGTH,
            forall|r: int| 0 <= r < WORLD_LENGTH ==> (#[trigger] w.chunks@[r])@.len() == WORLD_WIDTH,
            forall|r: int, c: int|
                0 <= r < WORLD_LENGTH && 0 <= c < WORLD_WIDTH ==> built_chunk(
                    #[trigger] w.chunks@[r]@[c],
                    r,
                    c,
                    CHUNK_WIDTH as int,
                    CHUNK_LENGTH as int,
                    CHUNK_DEPTH as int,
                ),
    {
        World::build(WORLD_LENGTH, WORLD_WIDTH, CHUNK_WIDTH, CHUNK_LENGTH, CHUNK_DEPTH)
    }
}

} // verus!
