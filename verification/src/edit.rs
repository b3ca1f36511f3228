//! Brush edits on chunk density maps.

use vstd::prelude::*;
use crate::density_map::{density_rows, DensityMapU8};

verus! {

/// What an edit sets.
#[derive(Debug, Clone)]
pub enum EditingTool {
    /// Paint foliage density `density`.
    SetFoliageDensity { density: u8 },
}

/// How a brush stroke applies to the density map.
#[derive(Debug, Clone, PartialEq, Eq, Structural)]
pub enum BrushType {
    /// Blend each texel under the brush towards the tool's value.
    SetExact,
    /// Smooth the texels under the brush (not applied yet).
    Smooth,
    /// Read the density under the brush.
    EyeDropper,
}

impl Default for BrushType {
    fn default() -> (brush_type: Self)
        ensures
            brush_type == BrushType::SetExact,
    {
        BrushType::SetExact
    }
}

/// The label of a brush type: its name.
pub open spec fn brush_label(brush_type: BrushType) -> Seq<char> {
    match brush_type {
        BrushType::SetExact => "SetExact"@,
        BrushType::Smooth => "Smooth"@,
        BrushType::EyeDropper => "EyeDropper"@,
    }
}

impl BrushType {
    /// The label shown for the brush type.
    pub fn label(&self) -> (label: &'static str)
        ensures
            label@ == brush_label(*self),
    {
        match self {
            BrushType::SetExact => "SetExact",
            BrushType::Smooth => "Smooth",
            BrushType::EyeDropper => "EyeDropper",
        }
    }
}

/// What a brush stroke reports back.
#[derive(Debug, Clone, PartialEq, Eq, Structural)]
pub enum FoliageBrushEvent {
    /// The eyedropper read density `density`.
    EyeDropFoliageDensity { density: u8 },
}

/// Rows `0..n` of the map, `n` its row count, each hold at least `n` texels:
/// the square a brush stroke covers lies inside the map.
pub open spec fn covers_square(rows: Seq<Seq<u8>>) -> bool {
    forall|y: int| 0 <= y < rows.len() ==> #[trigger] rows[y].len() >= rows.len()
}

/// The eyedropper at `(x, y)` reads a texel of the map, if the point lies in
/// the square of side the row count.
pub open spec fn eyedropper_readable(rows: Seq<Seq<u8>>, x: int, y: int) -> bool {
    (0 <= x < rows.len() && 0 <= y < rows.len()) ==> x < rows[y].len()
}

/// What the eyedropper reads at `(x, y)`: the density there, inside the
/// square of side the row count, and nothing outside it.
pub open spec fn eyedropper_event(rows: Seq<Seq<u8>>, x: int, y: int) -> Option<FoliageBrushEvent> {
    if 0 <= x < rows.len() && 0 <= y < rows.len() {
        Some(FoliageBrushEvent::EyeDropFoliageDensity { density: rows[y][x] })
    } else {
        None
    }
}

/// `after` is `before` with each texel `(x, y)` of the square of side the
/// row count replaced by what `blend` gives for `(x, y)` and its old density;
/// texels outside the square are kept.
pub open spec fn painted<F: Fn(usize, usize, u8) -> u8>(
    before: Seq<Seq<u8>>,
    after: Seq<Seq<u8>>,
    blend: F,
) -> bool {
    &&& after.len() == before.len()
    &&& forall|y: int| 0 <= y < before.len() ==> #[trigger] after[y].len() == before[y].len()
    &&& forall|y: int, x: int|
        0 <= y < before.len() && 0 <= x < before[y].len() ==> if x < before.len() {
            call_ensures(blend, (x as usize, y as usize, before[y][x]), #[trigger] after[y][x])
        } else {
            after[y][x] == before[y][x]
        }
}

/// A stroke keeps the map's shape, so the next stroke covers the same square,
/// and the eyedropper then reads, inside the square, what the brush gave for
/// that texel.
pub proof fn lemma_eyedropper_reads_stroke<F: Fn(usize, usize, u8) -> u8>(
    before: Seq<Seq<u8>>,
    after: Seq<Seq<u8>>,
    blend: F,
    x: usize,
    y: usize,
)
    requires
        covers_square(before),
        painted(before, after, blend),
        x < before.len(),
        y < before.len(),
    ensures
        covers_square(after),
        eyedropper_readable(after, x as int, y as int),
        eyedropper_event(after, x as int, y as int) matches Some(
            FoliageBrushEvent::EyeDropFoliageDensity { density },
        ) && call_ensures(blend, (x, y, before[y as int][x as int]), density),
{
    assert(before[y as int].len() >= before.len());
    assert(after[y as int][x as int] == after[y as int][x as int]);
}

/// Blends every texel of the square of side the row count with `blend`,
/// column by column.
fn paint_density_square<F: Fn(usize, usize, u8) -> u8>(density_map_data: &mut DensityMapU8, blend: &F)
    requires
        covers_square(density_rows(*old(density_map_data))),
        forall|x: usize, y: usize, value: u8| call_requires(*blend, (x, y, value)),
    ensures
        painted(density_rows(*old(density_map_data)), density_rows(*final(density_map_data)), *blend),
{
    let ghost before = density_rows(*density_map_data);
    let img_data_length = density_map_data.len();
    for x in 0..img_data_length
        invariant
            img_data_length == before.len(),
            covers_square(before),
            forall|x: usize, y: usize, value: u8| call_requires(*blend, (x, y, value)),
            density_rows(*density_map_data).len() == before.len(),
            forall|j: int|
                0 <= j < before.len() ==> #[trigger] density_rows(*density_map_data)[j].len()
                    == before[j].len(),
            forall|j: int, i: int|
                0 <= j < before.len() && 0 <= i < before[j].len() ==> if i < x {
                    call_ensures(
                        *blend,
                        (i as usize, j as usize, before[j][i]),
                        #[trigger] density_rows(*density_map_data)[j][i],
                    )
                } else {
                    density_rows(*density_map_data)[j][i] == before[j][i]
                },
    {
        for y in 0..img_data_length
            invariant
                img_data_length == before.len(),
                x < img_data_length,
                covers_square(before),
                forall|x: usize, y: usize, value: u8| call_requires(*blend, (x, y, value)),
                density_rows(*density_map_data).len() == before.len(),
                forall|j: int|
                    0 <= j < before.len() ==> #[trigger] density_rows(*density_map_data)[j].len()
                        == before[j].len(),
                forall|j: int, i: int|
                    0 <= j < before.len() && 0 <= i < before[j].len() ==> if i < x || (i == x
                        && j < y) {
                        call_ensures(
                            *blend,
                            (i as usize, j as usize, before[j][i]),
                            #[trigger] density_rows(*density_map_data)[j][i],
                        )
                    } else {
                        density_rows(*density_map_data)[j][i] == before[j][i]
                    },
        {
            let ghost current = density_rows(*density_map_data);
            assert(before[y as int].len() >= before.len());
            assert(current[y as int].len() == before[y as int].len());
            assert(density_map_data@[y as int]@ == current[y as int]);
            let old_density = density_map_data[y][x];
            let new_density = blend(x, y, old_density);
            density_map_data[y].set(x, new_density);
            assert(density_rows(*density_map_data) =~= current.update(
                y as int,
                current[y as int].update(x as int, new_density),
            ));
        }
    }
}

/// Applies one brush stroke to a chunk's density map.
///
/// `SetExact` blends every texel `(x, y)` of the square of side the row count
/// with `blend(x, y, old density)` and reports nothing; `EyeDropper` leaves
/// the map as it is and reports the density at `(eyedrop_x, eyedrop_y)` when
/// that point lies in the square; `Smooth` is not applied and reports
/// nothing.
pub fn apply_density_brush<F: Fn(usize, usize, u8) -> u8>(
    density_map_data: &mut DensityMapU8,
    brush_type: &BrushType,
    eyedrop_x: usize,
    eyedrop_y: usize,
    blend: F,
) -> (event: Option<FoliageBrushEvent>)
    requires
        *brush_type == BrushType::SetExact ==> covers_square(density_rows(*old(density_map_data))),
        *brush_type == BrushType::SetExact ==> forall|x: usize, y: usize, value: u8|
            call_requires(blend, (x, y, value)),
        *brush_type == BrushType::EyeDropper ==> eyedropper_readable(
            density_rows(*old(density_map_data)),
            eyedrop_x as int,
            eyedrop_y as int,
        ),
    ensures
        match *brush_type {
            BrushType::SetExact => {
                &&& painted(
                    density_rows(*old(density_map_data)),
                    density_rows(*final(density_map_data)),
                    blend,
                )
                &&& event is None
            },
            BrushType::EyeDropper => {
                &&& density_rows(*final(density_map_data)) == density_rows(*old(density_map_data))
                &&& event == eyedropper_event(
                    density_rows(*old(density_map_data)),
                    eyedrop_x as int,
                    eyedrop_y as int,
                )
            },
            BrushType::Smooth => {
                &&& density_rows(*final(density_map_data)) == density_rows(*old(density_map_data))
                &&& event is None
            },
        },
{
    match brush_type {
        BrushType::SetExact => {
            paint_density_square(density_map_data, &blend);
            None
        },
        BrushType::EyeDropper => {
            let img_data_length = density_map_data.len();
            let x = eyedrop_x;
            let y = eyedrop_y;
            if x < img_data_length && y < img_data_length {
                let local_data = density_map_data[y][x];
                Some(FoliageBrushEvent::EyeDropFoliageDensity { density: local_data })
            } else {
                None
            }
        },
        BrushType::Smooth => None,
    }
}

} // verus!
