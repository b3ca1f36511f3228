use foliage_paint::foliage::{chunk_name, chunk_texture_file_name, plan_foliage_chunks, FoliageData};
use foliage_paint::foliage_chunk::ChunkCoordinates;

#[test]
fn foliage_data_new() {
    let _data: FoliageData = FoliageData::new();
}

#[test]
fn chunk_names() {
    assert_eq!(chunk_name(0), "Chunk 0");
    assert_eq!(chunk_name(12), "Chunk 12");
    assert_eq!(chunk_name(4294967295), "Chunk 4294967295");
}

#[test]
fn chunk_texture_file_names() {
    assert_eq!(chunk_texture_file_name(0), "0.png");
    assert_eq!(chunk_texture_file_name(9), "9.png");
    assert_eq!(chunk_texture_file_name(10), "10.png");
    assert_eq!(chunk_texture_file_name(305), "305.png");
}

#[test]
fn plan_covers_the_grid_in_order() {
    let plans = plan_foliage_chunks(4);
    assert_eq!(plans.len(), 16);
    for (i, plan) in plans.iter().enumerate() {
        let i = i as u32;
        assert_eq!(plan.chunk.chunk_id, i);
        assert_eq!(plan.coords, [i % 4, i / 4]);
        assert_eq!(plan.coords.get_chunk_index(4), i);
        assert_eq!(plan.name, format!("Chunk {}", i));
        assert_eq!(plan.texture_file_name, format!("{}.png", i));
    }
}

#[test]
fn plan_of_empty_grid() {
    assert!(plan_foliage_chunks(0).is_empty());
}

#[test]
fn plan_of_single_chunk() {
    let plans = plan_foliage_chunks(1);
    assert_eq!(plans.len(), 1);
    assert_eq!(plans[0].coords, [0, 0]);
    assert_eq!(plans[0].name, "Chunk 0");
}
