use vstd::prelude::*;

use crate::arith::{lemma_mul_add, lemma_mul_le};
use crate::scroll::stitch::PreviewPatch;

verus! {

/// The number of document rows that one preview texture holds when the graphics driver allows
/// it.
pub const PREFERRED_TILE_ROWS: u32 = 2048;

/// Why the scroll preview cannot take a texture limit or a patch.
#[derive(Debug, Clone, Copy, PartialEq, Eq, Structural)]
pub enum TileError {
    InvalidTextureLimit,
    WidthExceedsTextureLimit { width: u32, limit: i32 },
    WidthChanged { from: u32, to: u32 },
    PatchRangeOverflow,
    PatchExceedsDocument,
    PatchLength { actual: usize, expected: usize },
}

/// The rows per preview texture for a driver whose largest texture side is
/// `maximum_texture_size`, or why a preview of `width` columns cannot be shown with it.
pub fn tile_rows_for_limit(maximum_texture_size: i32, width: u32) -> (r: Result<u32, TileError>)
    ensures
        maximum_texture_size <= 0 ==> r == Err::<u32, TileError>(TileError::InvalidTextureLimit),
        maximum_texture_size > 0 && width > maximum_texture_size ==> r == Err::<u32, TileError>(
            TileError::WidthExceedsTextureLimit { width, limit: maximum_texture_size },
        ),
        maximum_texture_size > 0 && width <= maximum_texture_size ==> r == Ok::<u32, TileError>(
            if maximum_texture_size < PREFERRED_TILE_ROWS {
                maximum_texture_size as u32
            } else {
                PREFERRED_TILE_ROWS
            },
        ),
{
    if maximum_texture_size <= 0 {
        return Err(TileError::InvalidTextureLimit);
    }
    let limit = maximum_texture_size as u32;
    if width > limit {
        return Err(TileError::WidthExceedsTextureLimit { width, limit: maximum_texture_size });
    }
    if limit < PREFERRED_TILE_ROWS {
        Ok(limit)
    } else {
        Ok(PREFERRED_TILE_ROWS)
    }
}

/// The number of textures that a document of `document_height` rows needs.
pub open spec fn spec_required_tiles(document_height: int, tile_rows: int) -> int {
    (document_height + tile_rows - 1) / tile_rows
}

pub fn required_tiles(document_height: u32, tile_rows: u32) -> (count: u32)
    requires
        tile_rows > 0,
    ensures
        count == spec_required_tiles(document_height as int, tile_rows as int),
        count as int * tile_rows >= document_height,
        count == 0 || (count - 1) * tile_rows < document_height,
{
    let whole = document_height / tile_rows;
    proof {
        vstd::arithmetic::div_mod::lemma_fundamental_div_mod(
            document_height as int,
            tile_rows as int,
        );
        lemma_mul_le(1, tile_rows as int, whole as int);
    }
    let count = if document_height % tile_rows == 0 {
        whole
    } else {
        whole + 1
    };
    proof {
        let h = document_height as int;
        let t = tile_rows as int;
        vstd::arithmetic::div_mod::lemma_fundamental_div_mod(h, t);
        vstd::arithmetic::div_mod::lemma_fundamental_div_mod(h + t - 1, t);
        lemma_mul_add(whole as int, 1, t);
        if h % t == 0 {
            vstd::arithmetic::div_mod::lemma_fundamental_div_mod_converse_div(
                h + t - 1,
                t,
                h / t,
                t - 1,
            );
        } else {
            vstd::arithmetic::div_mod::lemma_fundamental_div_mod_converse_div(
                h + t - 1,
                t,
                h / t + 1,
                h % t - 1,
            );
        }
        lemma_mul_add(count as int - 1, 1, t);
    }
    count
}

/// One texture upload of a patch: `rows` rows go to texture `tile`, starting at its row
/// `row_in_tile`, taken from bytes `source_start..source_end` of the patch; afterwards the
/// texture holds rows up to `used_rows`.
#[derive(Debug, Clone, Copy, PartialEq, Eq, Structural)]
pub struct TileUpload {
    pub tile: u32,
    pub row_in_tile: u32,
    pub rows: u32,
    pub source_start: usize,
    pub source_end: usize,
    pub used_rows: u32,
}

/// The first texture that a patch starting at document row `top` touches.
pub open spec fn first_tile(top: int, tile_rows: int) -> int {
    top / tile_rows
}

/// The last texture that a patch ending before document row `bottom` touches.
pub open spec fn last_tile(bottom: int, tile_rows: int) -> int {
    if bottom > 0 {
        (bottom - 1) / tile_rows
    } else {
        0
    }
}

/// The number of uploads for a patch of rows `top..bottom`.
pub open spec fn upload_count(top: int, bottom: int, tile_rows: int) -> int {
    if first_tile(top, tile_rows) <= last_tile(bottom, tile_rows) {
        last_tile(bottom, tile_rows) - first_tile(top, tile_rows) + 1
    } else {
        0
    }
}

/// The first document row that goes to texture `tile`.
pub open spec fn upload_start(top: int, tile: int, tile_rows: int) -> int {
    if top > tile * tile_rows {
        top
    } else {
        tile * tile_rows
    }
}

/// The document row after the last one that goes to texture `tile`.
pub open spec fn upload_end(bottom: int, tile: int, tile_rows: int) -> int {
    if bottom < tile * tile_rows + tile_rows {
        bottom
    } else {
        tile * tile_rows + tile_rows
    }
}

/// The upload of the rows `top..bottom` of a patch with `row_bytes` bytes per row into
/// texture `tile`.
pub open spec fn tile_upload(top: int, bottom: int, tile: int, tile_rows: int, row_bytes: int) -> TileUpload {
    let start = upload_start(top, tile, tile_rows);
    let end = upload_end(bottom, tile, tile_rows);
    TileUpload {
        tile: tile as u32,
        row_in_tile: (start - tile * tile_rows) as u32,
        rows: (end - start) as u32,
        source_start: ((start - top) * row_bytes) as usize,
        source_end: ((start - top) * row_bytes + (end - start) * row_bytes) as usize,
        used_rows: (end - tile * tile_rows) as u32,
    }
}

/// The error, if any, that a patch meets before it is uploaded, in the order in which it is
/// checked.
pub open spec fn patch_error(width: u32, patch: PreviewPatch) -> Option<TileError> {
    let bottom = patch.region.top + patch.region.height;
    if patch.document_width != width {
        Some(TileError::WidthChanged { from: width, to: patch.document_width })
    } else if bottom > u32::MAX {
        Some(TileError::PatchRangeOverflow)
    } else if bottom > patch.document_height {
        Some(TileError::PatchExceedsDocument)
    } else if patch.rgba@.len() != patch.region.height * (width * 4) {
        Some(
            TileError::PatchLength {
                actual: patch.rgba@.len() as usize,
                expected: (patch.region.height * (width * 4)) as usize,
            },
        )
    } else {
        None
    }
}

proof fn lemma_tile_bounds(top: int, bottom: int, tile: int, tile_rows: int)
    requires
        0 <= top <= bottom,
        tile_rows > 0,
        first_tile(top, tile_rows) <= tile <= last_tile(bottom, tile_rows),
    ensures
        bottom > 0 ==> tile * tile_rows <= bottom - 1,
        bottom == 0 ==> tile == 0,
        tile * tile_rows + tile_rows > top,
        tile >= 0,
{
    vstd::arithmetic::div_mod::lemma_fundamental_div_mod(top, tile_rows);
    vstd::arithmetic::div_mod::lemma_div_pos_is_pos(top, tile_rows);
    lemma_mul_le(top / tile_rows, tile, tile_rows);
    lemma_mul_add(top / tile_rows, 1, tile_rows);
    lemma_mul_add(tile, 1, tile_rows);
    lemma_mul_le(top / tile_rows + 1, tile + 1, tile_rows);
    if bottom > 0 {
        vstd::arithmetic::div_mod::lemma_fundamental_div_mod(bottom - 1, tile_rows);
        lemma_mul_le(tile, (bottom - 1) / tile_rows, tile_rows);
    } else {
        vstd::arithmetic::div_mod::lemma_div_pos_is_pos(top, tile_rows);
    }
}

/// Splits a patch of changed document rows into texture uploads: one for each texture of
/// `tile_rows` rows that the patch touches, in order, each with its rows and the bytes of the
/// patch that hold them. Fails, without an upload, when the patch's width is not the preview's,
/// its rows overflow or leave the document, or its byte length is not that of its rows.
pub fn plan_patch_upload(width: u32, tile_rows: u32, patch: &PreviewPatch) -> (r: Result<
    Vec<TileUpload>,
    TileError,
>)
    requires
        tile_rows > 0,
        patch.region.top + patch.region.height <= patch.document_height
            ==> patch.region.top + patch.region.height + tile_rows <= u32::MAX + 1,
        patch.document_width == width && patch.region.top + patch.region.height
            <= patch.document_height ==> patch.region.height * (width * 4) <= usize::MAX && width
            * 4 <= usize::MAX,
    ensures
        match patch_error(width, *patch) {
            Some(error) => r == Err::<Vec<TileUpload>, TileError>(error),
            None => match r {
                Ok(uploads) => {
                    let top = patch.region.top as int;
                    let bottom = top + patch.region.height;
                    &&& uploads@.len() == upload_count(top, bottom, tile_rows as int)
                    &&& forall|k: int|
                        0 <= k < uploads@.len() ==> #[trigger] uploads@[k] == tile_upload(
                            top,
                            bottom,
                            first_tile(top, tile_rows as int) + k,
                            tile_rows as int,
                            width * 4,
                        )
                },
                Err(_) => false,
            },
        },
{
    if patch.document_width != width {
        return Err(TileError::WidthChanged { from: width, to: patch.document_width });
    }
    let top = patch.region.top;
    let bottom = match top.checked_add(patch.region.height) {
        Some(bottom) => bottom,
        None => {
            return Err(TileError::PatchRangeOverflow);
        },
    };
    if bottom > patch.document_height {
        return Err(TileError::PatchExceedsDocument);
    }
    let row_bytes = width as usize * 4;
    let expected = patch.region.height as usize * row_bytes;
    if patch.rgba.len() != expected {
        return Err(TileError::PatchLength { actual: patch.rgba.len(), expected });
    }
    let first = top / tile_rows;
    let last = if bottom > 0 {
        (bottom - 1) / tile_rows
    } else {
        0
    };
    let ghost t = tile_rows as int;
    let mut uploads: Vec<TileUpload> = Vec::new();
    if first <= last {
        let mut tile = first;
        loop
            invariant_except_break
                uploads@.len() == tile - first,
            invariant
                first <= tile <= last,
                first == first_tile(top as int, t),
                last == last_tile(bottom as int, t),
                t == tile_rows,
                t > 0,
                top <= bottom,
                bottom + t <= u32::MAX + 1,
                row_bytes == width * 4,
                patch.region.height == bottom - top,
                patch.region.height * row_bytes <= usize::MAX,
                forall|k: int|
                    0 <= k < uploads@.len() ==> #[trigger] uploads@[k] == tile_upload(
                        top as int,
                        bottom as int,
                        first + k,
                        t,
                        row_bytes as int,
                    ),
            ensures
                uploads@.len() == last - first + 1,
                forall|k: int|
                    0 <= k < uploads@.len() ==> #[trigger] uploads@[k] == tile_upload(
                        top as int,
                        bottom as int,
                        first + k,
                        t,
                        row_bytes as int,
                    ),
            decreases last - tile,
        {
            proof {
                lemma_tile_bounds(top as int, bottom as int, tile as int, t);
            }
            let tile_start = tile * tile_rows;
            let tile_end = tile_start + tile_rows;
            let start = if top > tile_start {
                top
            } else {
                tile_start
            };
            let end = if bottom < tile_end {
                bottom
            } else {
                tile_end
            };
            proof {
                lemma_mul_le((start - top) as int, (bottom - top) as int, row_bytes as int);
                lemma_mul_le((end - top) as int, (bottom - top) as int, row_bytes as int);
                lemma_mul_add((start - top) as int, (end - start) as int, row_bytes as int);
                lemma_mul_le(0, (start - top) as int, row_bytes as int);
                lemma_mul_le(0, (end - start) as int, row_bytes as int);
            }
            let source_start = (start - top) as usize * row_bytes;
            let source_end = source_start + (end - start) as usize * row_bytes;
            let upload = TileUpload {
                tile,
                row_in_tile: start - tile_start,
                rows: end - start,
                source_start,
                source_end,
                used_rows: end - tile_start,
            };
            let ghost before = uploads@;
            uploads.push(upload);
            assert(upload == tile_upload(top as int, bottom as int, tile as int, t, row_bytes as int));
            assert forall|k: int| 0 <= k < uploads@.len() implies #[trigger] uploads@[k]
                == tile_upload(top as int, bottom as int, first + k, t, row_bytes as int) by {
                if k < before.len() {
                    assert(uploads@[k] == before[k]);
                }
            }
            if tile == last {
                break;
            }
            tile = tile + 1;
        }
    }
    Ok(uploads)
}

/// The uploads of a patch cover its rows exactly once and in order: each stays inside one
/// texture, each starts at the document row where the one before it ended, the first starts at
/// the patch's first row and the last ends after its last row. A patch with rows has at least
/// one upload.
pub proof fn lemma_uploads_tile_the_patch(top: int, height: int, tile_rows: int, row_bytes: int)
    requires
        0 <= top,
        0 <= height,
        tile_rows > 0,
        0 <= row_bytes,
    ensures
        ({
            let bottom = top + height;
            let first = first_tile(top, tile_rows);
            let count = upload_count(top, bottom, tile_rows);
            &&& height > 0 ==> count >= 1
            &&& forall|tile: int|
                first <= tile < first + count ==> {
                    &&& #[trigger] upload_start(top, tile, tile_rows) <= upload_end(
                        bottom,
                        tile,
                        tile_rows,
                    )
                    &&& tile * tile_rows <= upload_start(top, tile, tile_rows)
                    &&& upload_end(bottom, tile, tile_rows) <= tile * tile_rows + tile_rows
                }
            &&& forall|tile: int|
                first <= tile < first + count - 1 ==> #[trigger] upload_end(bottom, tile, tile_rows)
                    == upload_start(top, tile + 1, tile_rows)
            &&& count > 0 ==> upload_start(top, first, tile_rows) == top && upload_end(
                bottom,
                first + count - 1,
                tile_rows,
            ) == bottom
        }),
{
    let bottom = top + height;
    let first = first_tile(top, tile_rows);
    let last = last_tile(bottom, tile_rows);
    let count = upload_count(top, bottom, tile_rows);
    vstd::arithmetic::div_mod::lemma_fundamental_div_mod(top, tile_rows);
    if height > 0 {
        vstd::arithmetic::div_mod::lemma_fundamental_div_mod(bottom - 1, tile_rows);
        vstd::arithmetic::div_mod::lemma_div_is_ordered(top, bottom - 1, tile_rows);
    }
    assert forall|tile: int| first <= tile < first + count implies {
        &&& #[trigger] upload_start(top, tile, tile_rows) <= upload_end(bottom, tile, tile_rows)
        &&& tile * tile_rows <= upload_start(top, tile, tile_rows)
        &&& upload_end(bottom, tile, tile_rows) <= tile * tile_rows + tile_rows
    } by {
        lemma_tile_bounds(top, bottom, tile, tile_rows);
    }
    assert forall|tile: int| first <= tile < first + count - 1 implies #[trigger] upload_end(
        bottom,
        tile,
        tile_rows,
    ) == upload_start(top, tile + 1, tile_rows) by {
        lemma_tile_bounds(top, bottom, tile, tile_rows);
        lemma_tile_bounds(top, bottom, tile + 1, tile_rows);
        lemma_mul_add(tile, 1, tile_rows);
    }
    if count > 0 {
        lemma_tile_bounds(top, bottom, first, tile_rows);
        lemma_tile_bounds(top, bottom, last, tile_rows);
        lemma_mul_le(first, first, tile_rows);
        if bottom > 0 {
            lemma_mul_add(last, 1, tile_rows);
        }
    }
}


/// Texture `tile` receives an upload of the patch of rows `top..bottom`.
pub open spec fn receives_upload(top: int, bottom: int, tile_rows: int, tile: int) -> bool {
    first_tile(top, tile_rows) <= tile < first_tile(top, tile_rows) + upload_count(
        top,
        bottom,
        tile_rows,
    )
}

/// Every upload of a patch that lies inside a non-empty document goes to one of the textures
/// that the document needs and ends inside the document, so the preview never writes past its
/// last texture.
pub proof fn lemma_uploads_fit_the_textures(
    top: int,
    height: int,
    document_height: int,
    tile_rows: int,
)
    requires
        0 <= top,
        0 <= height,
        top + height <= document_height,
        document_height > 0,
        tile_rows > 0,
    ensures
        forall|tile: int| #[trigger]
            receives_upload(top, top + height, tile_rows, tile) ==> tile < spec_required_tiles(
                document_height,
                tile_rows,
            ) && upload_end(top + height, tile, tile_rows) <= document_height,
{
    let required = spec_required_tiles(document_height, tile_rows);
    vstd::arithmetic::div_mod::lemma_fundamental_div_mod(document_height + tile_rows - 1, tile_rows);
    assert forall|tile: int| #[trigger]
        receives_upload(top, top + height, tile_rows, tile) implies tile < spec_required_tiles(
            document_height,
            tile_rows,
        ) && upload_end(top + height, tile, tile_rows) <= document_height by {
        lemma_tile_bounds(top, top + height, tile, tile_rows);
        if tile >= required {
            lemma_mul_le(required, tile, tile_rows);
        }
    }
}

} // verus!
