use foliage_paint::density_map::DensityMapU8;
use foliage_paint::edit::{apply_density_brush, BrushType, EditingTool, FoliageBrushEvent};

#[test]
fn brush_type_default_and_labels() {
    assert_eq!(BrushType::default(), BrushType::SetExact);
    assert_eq!(BrushType::SetExact.label(), "SetExact");
    assert_eq!(BrushType::Smooth.label(), "Smooth");
    assert_eq!(BrushType::EyeDropper.label(), "EyeDropper");
}

#[test]
fn editing_tool_holds_density() {
    let EditingTool::SetFoliageDensity { density } = EditingTool::SetFoliageDensity { density: 9 };
    assert_eq!(density, 9);
}

#[test]
fn set_exact_blends_the_square() {
    let mut map: DensityMapU8 = vec![vec![1, 2, 3], vec![4, 5, 6]];
    let event = apply_density_brush(&mut map, &BrushType::SetExact, 0, 0, |x, y, v| {
        (v + 10 * x as u8 + 100 * y as u8) as u8
    });
    assert_eq!(event, None);
    // the square has side 2 (the row count): column 2 is kept
    assert_eq!(map, vec![vec![1, 12, 3], vec![104, 115, 6]]);
}

#[test]
fn set_exact_with_brush_that_keeps_values() {
    let mut map: DensityMapU8 = vec![vec![7, 8], vec![9, 10]];
    let event = apply_density_brush(&mut map, &BrushType::SetExact, 0, 0, |_, _, v| v);
    assert_eq!(event, None);
    assert_eq!(map, vec![vec![7, 8], vec![9, 10]]);
}

#[test]
fn eyedropper_reads_inside_the_square() {
    let mut map: DensityMapU8 = vec![vec![1, 2], vec![3, 4]];
    let event = apply_density_brush(&mut map, &BrushType::EyeDropper, 1, 0, |_, _, _| 0);
    assert_eq!(event, Some(FoliageBrushEvent::EyeDropFoliageDensity { density: 2 }));
    assert_eq!(map, vec![vec![1, 2], vec![3, 4]]);
}

#[test]
fn eyedropper_outside_reads_nothing() {
    let mut map: DensityMapU8 = vec![vec![1, 2], vec![3, 4]];
    let event = apply_density_brush(&mut map, &BrushType::EyeDropper, 2, 0, |_, _, _| 0);
    assert_eq!(event, None);
    let event = apply_density_brush(&mut map, &BrushType::EyeDropper, 0, 5, |_, _, _| 0);
    assert_eq!(event, None);
    assert_eq!(map, vec![vec![1, 2], vec![3, 4]]);
}

#[test]
fn smooth_is_not_applied() {
    let mut map: DensityMapU8 = vec![vec![1, 2], vec![3, 4]];
    let event = apply_density_brush(&mut map, &BrushType::Smooth, 0, 0, |_, _, _| 0);
    assert_eq!(event, None);
    assert_eq!(map, vec![vec![1, 2], vec![3, 4]]);
}

#[test]
fn painted_value_is_read_back_by_eyedropper() {
    let mut map: DensityMapU8 = vec![vec![0; 3]; 3];
    apply_density_brush(&mut map, &BrushType::SetExact, 0, 0, |x, y, _| if x == 1 && y == 2 { 200 } else { 50 });
    let event = apply_density_brush(&mut map, &BrushType::EyeDropper, 1, 2, |_, _, _| 0);
    assert_eq!(event, Some(FoliageBrushEvent::EyeDropFoliageDensity { density: 200 }));
}
