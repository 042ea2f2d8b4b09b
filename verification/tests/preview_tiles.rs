use patrick_star::scroll::preview_tiles::{
    plan_patch_upload, required_tiles, tile_rows_for_limit, TileError, TileUpload,
};
use patrick_star::scroll::stitch::{PreviewPatch, PreviewRegion};

fn patch(width: u32, document_height: u32, top: u32, height: u32, rgba: &[u8]) -> PreviewPatch<'_> {
    PreviewPatch {
        document_width: width,
        document_height,
        region: PreviewRegion { top, height },
        rgba,
    }
}

#[test]
fn texture_limit_decides_rows_per_tile() {
    assert_eq!(tile_rows_for_limit(0, 10), Err(TileError::InvalidTextureLimit));
    assert_eq!(tile_rows_for_limit(-5, 10), Err(TileError::InvalidTextureLimit));
    assert_eq!(
        tile_rows_for_limit(4096, 5000),
        Err(TileError::WidthExceedsTextureLimit { width: 5000, limit: 4096 })
    );
    assert_eq!(tile_rows_for_limit(1024, 1024), Ok(1024));
    assert_eq!(tile_rows_for_limit(16384, 100), Ok(2048));
}

#[test]
fn required_tiles_round_up() {
    assert_eq!(required_tiles(0, 4), 0);
    assert_eq!(required_tiles(8, 4), 2);
    assert_eq!(required_tiles(9, 4), 3);
    assert_eq!(required_tiles(u32::MAX, 2048), 2_097_152);
}

#[test]
fn patch_across_three_tiles_is_split_at_tile_edges() {
    let rgba: Vec<u8> = (0..48).collect();
    let uploads = plan_patch_upload(2, 4, &patch(2, 10, 3, 6, &rgba)).unwrap();
    assert_eq!(
        uploads,
        vec![
            TileUpload { tile: 0, row_in_tile: 3, rows: 1, source_start: 0, source_end: 8, used_rows: 4 },
            TileUpload { tile: 1, row_in_tile: 0, rows: 4, source_start: 8, source_end: 40, used_rows: 4 },
            TileUpload { tile: 2, row_in_tile: 0, rows: 1, source_start: 40, source_end: 48, used_rows: 1 },
        ]
    );
}

#[test]
fn empty_patch_inside_a_tile_uploads_nothing_but_marks_its_row() {
    let uploads = plan_patch_upload(2, 4, &patch(2, 5, 5, 0, &[])).unwrap();
    assert_eq!(
        uploads,
        vec![TileUpload { tile: 1, row_in_tile: 1, rows: 0, source_start: 0, source_end: 0, used_rows: 1 }]
    );
    assert_eq!(plan_patch_upload(2, 4, &patch(2, 8, 8, 0, &[])).unwrap(), vec![]);
}

#[test]
fn invalid_patches_are_refused() {
    assert_eq!(
        plan_patch_upload(2, 4, &patch(3, 10, 0, 1, &[0; 12])),
        Err(TileError::WidthChanged { from: 2, to: 3 })
    );
    assert_eq!(
        plan_patch_upload(2, 4, &patch(2, 10, u32::MAX, 1, &[0; 8])),
        Err(TileError::PatchRangeOverflow)
    );
    assert_eq!(
        plan_patch_upload(2, 4, &patch(2, 10, 8, 3, &[0; 24])),
        Err(TileError::PatchExceedsDocument)
    );
    assert_eq!(
        plan_patch_upload(2, 4, &patch(2, 10, 0, 2, &[0; 15])),
        Err(TileError::PatchLength { actual: 15, expected: 16 })
    );
}
