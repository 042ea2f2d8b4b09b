use vstd::prelude::*;

verus! {

/// A band of document rows that changed: its first row and its number of rows.
#[derive(Debug, Clone, Copy, PartialEq, Eq, Structural)]
pub struct PreviewRegion {
    pub top: u32,
    pub height: u32,
}

/// Changed rows of the stitched document, borrowed for a preview upload.
#[derive(Debug)]
pub struct PreviewPatch<'a> {
    pub document_width: u32,
    pub document_height: u32,
    pub region: PreviewRegion,
    pub rgba: &'a [u8],
}

/// Changed rows of the stitched document, owned so that they can cross threads.
#[derive(Debug)]
pub struct OwnedPreviewPatch {
    pub document_width: u32,
    pub document_height: u32,
    pub region: PreviewRegion,
    pub rgba: Vec<u8>,
}

impl OwnedPreviewPatch {
    pub fn as_patch(&self) -> (patch: PreviewPatch<'_>)
        ensures
            patch.document_width == self.document_width,
            patch.document_height == self.document_height,
            patch.region == self.region,
            patch.rgba@ == self.rgba@,
    {
        PreviewPatch {
            document_width: self.document_width,
            document_height: self.document_height,
            region: self.region,
            rgba: self.rgba.as_slice(),
        }
    }
}

} // verus!
