//! The foliage root and the layout of its chunk grid: which chunks it spawns,
//! where they sit, and the names of their textures.

use vstd::prelude::*;
use vstd::arithmetic::div_mod::lemma_fundamental_div_mod;
use crate::foliage_chunk::{
    chunk_column_of, chunk_index_of, chunk_row_of, lemma_chunk_id_round_trip, ChunkCoordinates,
    ChunkCoords, FoliageChunk,
};

verus! {

/// The foliage root.
pub struct FoliageData {}

impl FoliageData {
    /// A new foliage root.
    pub fn new() -> (foliage_data: Self)
        ensures
            foliage_data == (FoliageData {}),
    {
        FoliageData {}
    }
}

/// The character of a decimal digit.
pub open spec fn digit_char(digit: nat) -> char {
    if digit == 0 {
        '0'
    } else if digit == 1 {
        '1'
    } else if digit == 2 {
        '2'
    } else if digit == 3 {
        '3'
    } else if digit == 4 {
        '4'
    } else if digit == 5 {
        '5'
    } else if digit == 6 {
        '6'
    } else if digit == 7 {
        '7'
    } else if digit == 8 {
        '8'
    } else {
        '9'
    }
}

/// The decimal notation of `n`, without leading zeros.
pub open spec fn decimal(n: nat) -> Seq<char>
    decreases n,
{
    if n < 10 {
        seq![digit_char(n)]
    } else {
        decimal(n / 10).push(digit_char(n % 10))
    }
}

/// The one-character string of a digit.
fn digit_str(digit: u32) -> (s: &'static str)
    requires
        digit < 10,
    ensures
        s@ == seq![digit_char(digit as nat)],
{
    match digit {
        0 => {
            proof {
                reveal_strlit("0");
            }
            "0"
        },
        1 => {
            proof {
                reveal_strlit("1");
            }
            "1"
        },
        2 => {
            proof {
                reveal_strlit("2");
            }
            "2"
        },
        3 => {
            proof {
                reveal_strlit("3");
            }
            "3"
        },
        4 => {
            proof {
                reveal_strlit("4");
            }
            "4"
        },
        5 => {
            proof {
                reveal_strlit("5");
            }
            "5"
        },
        6 => {
            proof {
                reveal_strlit("6");
            }
            "6"
        },
        7 => {
            proof {
                reveal_strlit("7");
            }
            "7"
        },
        8 => {
            proof {
                reveal_strlit("8");
            }
            "8"
        },
        _ => {
            proof {
                reveal_strlit("9");
            }
            "9"
        },
    }
}

/// Appends the decimal notation of `n` to `s`.
fn push_decimal(s: &mut String, n: u32)
    ensures
        final(s)@ == old(s)@ + decimal(n as nat),
    decreases n,
{
    if n >= 10 {
        push_decimal(s, n / 10);
    }
    s.append(digit_str(n % 10));
    proof {
        if n >= 10 {
            assert(decimal(n as nat) == decimal((n / 10) as nat).push(digit_char((n % 10) as nat)));
        }
    }
}

/// The name of the chunk with id `chunk_id`: `Chunk ` and its id.
pub fn chunk_name(chunk_id: u32) -> (name: String)
    ensures
        name@ == "Chunk "@ + decimal(chunk_id as nat),
{
    let mut name = String::from_str("Chunk ");
    push_decimal(&mut name, chunk_id);
    name
}

/// The file name of a texture of the chunk with id `chunk_id`: its id and
/// `.png`.
pub fn chunk_texture_file_name(chunk_id: u32) -> (file_name: String)
    ensures
        file_name@ == decimal(chunk_id as nat) + ".png"@,
{
    let mut file_name = String::new();
    push_decimal(&mut file_name, chunk_id);
    file_name.append(".png");
    file_name
}

/// A chunk that the foliage root spawns: the chunk, its place on the grid,
/// its name, and the file name of its density and height-offset textures
/// inside their folders.
pub struct FoliageChunkPlan {
    pub chunk: FoliageChunk,
    pub coords: ChunkCoords,
    pub name: String,
    pub texture_file_name: String,
}

/// The plan of chunk `chunk_id` on a grid of `chunk_rows` chunks per row.
pub open spec fn is_chunk_plan(plan: FoliageChunkPlan, chunk_id: int, chunk_rows: int) -> bool {
    &&& plan.chunk.chunk_id == chunk_id
    &&& plan.coords.coord_x() == chunk_column_of(chunk_id, chunk_rows)
    &&& plan.coords.coord_y() == chunk_row_of(chunk_id, chunk_rows)
    &&& plan.name@ == "Chunk "@ + decimal(chunk_id as nat)
    &&& plan.texture_file_name@ == decimal(chunk_id as nat) + ".png"@
}

/// The chunks of a foliage root whose grid has `chunk_rows` chunks per row:
/// ids `0` to `chunk_rows * chunk_rows - 1` in order, each placed at the
/// coordinates of its id.
pub fn plan_foliage_chunks(chunk_rows: u32) -> (plans: Vec<FoliageChunkPlan>)
    requires
        chunk_rows * chunk_rows <= u32::MAX,
    ensures
        plans@.len() == chunk_rows * chunk_rows,
        forall|i: int| 0 <= i < plans@.len() ==> is_chunk_plan(#[trigger] plans@[i], i, chunk_rows as int),
        forall|i: int|
            0 <= i < plans@.len() ==> {
                let coords = #[trigger] plans@[i].coords;
                &&& coords.coord_x() < chunk_rows
                &&& coords.coord_y() < chunk_rows
                &&& chunk_index_of(coords.coord_x() as int, coords.coord_y() as int, chunk_rows as int) == i
            },
{
    let max_chunks = chunk_rows * chunk_rows;
    let mut plans: Vec<FoliageChunkPlan> = Vec::new();
    for chunk_id in 0..max_chunks
        invariant
            max_chunks == chunk_rows * chunk_rows,
            plans@.len() == chunk_id,
            forall|i: int| 0 <= i < chunk_id ==> is_chunk_plan(#[trigger] plans@[i], i, chunk_rows as int),
    {
        let coords = ChunkCoords::from_chunk_id(chunk_id, chunk_rows);
        plans.push(FoliageChunkPlan {
            chunk: FoliageChunk::new(chunk_id),
            coords,
            name: chunk_name(chunk_id),
            texture_file_name: chunk_texture_file_name(chunk_id),
        });
    }
    assert forall|i: int| 0 <= i < plans@.len() implies {
        let coords = #[trigger] plans@[i].coords;
        &&& coords.coord_x() < chunk_rows
        &&& coords.coord_y() < chunk_rows
        &&& chunk_index_of(coords.coord_x() as int, coords.coord_y() as int, chunk_rows as int) == i
    } by {
        assert(is_chunk_plan(plans@[i], i, chunk_rows as int));
        assert(chunk_rows > 0) by (nonlinear_arith)
            requires
                0 <= i < chunk_rows * chunk_rows,
        ;
        lemma_chunk_id_round_trip(i as u32, chunk_rows);
        lemma_row_inside_grid(i, chunk_rows as int);
    }
    plans
}

/// An id below `chunk_rows * chunk_rows` lies in one of the grid's rows.
proof fn lemma_row_inside_grid(chunk_id: int, chunk_rows: int)
    requires
        0 <= chunk_id < chunk_rows * chunk_rows,
        chunk_rows >= 0,
    ensures
        chunk_id / chunk_rows < chunk_rows,
{
    assert(chunk_rows > 0) by (nonlinear_arith)
        requires
            0 <= chunk_id < chunk_rows * chunk_rows,
            chunk_rows >= 0,
    ;
    lemma_fundamental_div_mod(chunk_id, chunk_rows);
    let q = chunk_id / chunk_rows;
    let r = chunk_id % chunk_rows;
    assert(q < chunk_rows) by (nonlinear_arith)
        requires
            chunk_id == chunk_rows * q + r,
            0 <= r,
            chunk_id < chunk_rows * chunk_rows,
            chunk_rows > 0,
    ;
}

} // verus!
