//! Foliage chunks and their coordinates on the square chunk grid.

use vstd::prelude::*;
use vstd::arithmetic::div_mod::{lemma_fundamental_div_mod, lemma_fundamental_div_mod_converse};

verus! {

/// A foliage chunk, known by its id on the chunk grid.
pub struct FoliageChunk {
    pub chunk_id: u32,
}

impl FoliageChunk {
    /// The chunk with id `chunk_id`.
    pub fn new(chunk_id: u32) -> (chunk: Self)
        ensures
            chunk.chunk_id == chunk_id,
    {
        Self { chunk_id }
    }
}

/// The coordinates `[x, y]` of a chunk on the grid.
pub type ChunkCoords = [u32; 2];

/// The id of the chunk at `(x, y)` on a grid of `chunk_rows` chunks per row:
/// the rows before it, then its column.
pub open spec fn chunk_index_of(x: int, y: int, chunk_rows: int) -> int {
    y * chunk_rows + x
}

/// The column of the chunk with id `chunk_id`.
pub open spec fn chunk_column_of(chunk_id: int, chunk_rows: int) -> int {
    chunk_id % chunk_rows
}

/// The row of the chunk with id `chunk_id`.
pub open spec fn chunk_row_of(chunk_id: int, chunk_rows: int) -> int {
    chunk_id / chunk_rows
}

/// Coordinates of a chunk on a square grid of chunks.
pub trait ChunkCoordinates: Sized {
    /// The column.
    spec fn coord_x(&self) -> u32;

    /// The row.
    spec fn coord_y(&self) -> u32;

    /// The coordinates `(x, y)`.
    fn new(x: u32, y: u32) -> (coords: Self)
        ensures
            coords.coord_x() == x,
            coords.coord_y() == y,
    ;

    /// The column.
    fn x(&self) -> (x: u32)
        ensures
            x == self.coord_x(),
    ;

    /// The row.
    fn y(&self) -> (y: u32)
        ensures
            y == self.coord_y(),
    ;

    /// The chunk's id on a grid of `chunk_rows` chunks per row.
    fn get_chunk_index(&self, chunk_rows: u32) -> (index: u32)
        requires
            chunk_index_of(self.coord_x() as int, self.coord_y() as int, chunk_rows as int)
                <= u32::MAX,
        ensures
            index == chunk_index_of(self.coord_x() as int, self.coord_y() as int, chunk_rows as int),
    ;

    /// The coordinates of the chunk with id `chunk_id` on a grid of
    /// `chunk_rows` chunks per row.
    fn from_chunk_id(chunk_id: u32, chunk_rows: u32) -> (coords: Self)
        requires
            chunk_rows > 0,
        ensures
            coords.coord_x() == chunk_column_of(chunk_id as int, chunk_rows as int),
            coords.coord_y() == chunk_row_of(chunk_id as int, chunk_rows as int),
    ;
}

impl ChunkCoordinates for ChunkCoords {
    open spec fn coord_x(&self) -> u32 {
        self@[0]
    }

    open spec fn coord_y(&self) -> u32 {
        self@[1]
    }

    fn new(x: u32, y: u32) -> (coords: Self) {
        [x, y]
    }

    fn x(&self) -> (x: u32) {
        self[0]
    }

    fn y(&self) -> (y: u32) {
        self[1]
    }

    fn get_chunk_index(&self, chunk_rows: u32) -> (index: u32) {
        return self.y() * chunk_rows + self.x();
    }

    fn from_chunk_id(chunk_id: u32, chunk_rows: u32) -> (coords: Self) {
        let coords_y = chunk_id / chunk_rows;
        let coords_x = chunk_id % chunk_rows;
        [coords_x, coords_y]
    }
}

/// Every chunk id names coordinates on the grid, and those coordinates name
/// the id again.
pub proof fn lemma_chunk_id_round_trip(chunk_id: u32, chunk_rows: u32)
    requires
        chunk_rows > 0,
    ensures
        0 <= chunk_column_of(chunk_id as int, chunk_rows as int) < chunk_rows,
        0 <= chunk_row_of(chunk_id as int, chunk_rows as int) <= chunk_id,
        chunk_index_of(
            chunk_column_of(chunk_id as int, chunk_rows as int),
            chunk_row_of(chunk_id as int, chunk_rows as int),
            chunk_rows as int,
        ) == chunk_id,
{
    lemma_fundamental_div_mod(chunk_id as int, chunk_rows as int);
    let q = chunk_id as int / chunk_rows as int;
    assert(q * chunk_rows == chunk_rows * q) by (nonlinear_arith);
    assert(q <= q * chunk_rows) by (nonlinear_arith)
        requires
            q >= 0,
            chunk_rows >= 1,
    ;
}

/// The coordinates of a chunk inside the grid's columns give an id, and that
/// id gives the same coordinates back.
pub proof fn lemma_chunk_coords_round_trip(x: u32, y: u32, chunk_rows: u32)
    requires
        x < chunk_rows,
    ensures
        chunk_column_of(chunk_index_of(x as int, y as int, chunk_rows as int), chunk_rows as int)
            == x,
        chunk_row_of(chunk_index_of(x as int, y as int, chunk_rows as int), chunk_rows as int) == y,
{
    lemma_fundamental_div_mod_converse(
        chunk_index_of(x as int, y as int, chunk_rows as int),
        chunk_rows as int,
        y as int,
        x as int,
    );
}

} // verus!
