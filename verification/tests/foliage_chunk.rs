use foliage_paint::foliage_chunk::{ChunkCoordinates, ChunkCoords, FoliageChunk};

#[test]
fn new_chunk_keeps_its_id() {
    assert_eq!(FoliageChunk::new(7).chunk_id, 7);
}

#[test]
fn coords_new_and_accessors() {
    let c = <ChunkCoords as ChunkCoordinates>::new(3, 5);
    assert_eq!(c, [3, 5]);
    assert_eq!(c.x(), 3);
    assert_eq!(c.y(), 5);
}

#[test]
fn chunk_index_is_row_major() {
    let c: ChunkCoords = [3, 2];
    assert_eq!(c.get_chunk_index(4), 11);
    let c: ChunkCoords = [10, 1];
    assert_eq!(c.get_chunk_index(64), 74);
}

#[test]
fn from_chunk_id_splits_row_and_column() {
    assert_eq!(<ChunkCoords as ChunkCoordinates>::from_chunk_id(11, 4), [3, 2]);
    assert_eq!(<ChunkCoords as ChunkCoordinates>::from_chunk_id(0, 4), [0, 0]);
    assert_eq!(<ChunkCoords as ChunkCoordinates>::from_chunk_id(15, 4), [3, 3]);
}

#[test]
fn chunk_id_round_trip() {
    for rows in 1u32..6 {
        for id in 0..rows * rows {
            let c = <ChunkCoords as ChunkCoordinates>::from_chunk_id(id, rows);
            assert_eq!(c.get_chunk_index(rows), id);
        }
    }
}

#[test]
fn chunk_coords_round_trip() {
    let rows = 5;
    for x in 0..rows {
        for y in 0..9 {
            let c: ChunkCoords = [x, y];
            let id = c.get_chunk_index(rows);
            assert_eq!(<ChunkCoords as ChunkCoordinates>::from_chunk_id(id, rows), c);
        }
    }
}
