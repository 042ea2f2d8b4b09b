pub mod fingerprint;
pub mod matching;
pub mod placement;
pub mod preview_tiles;
pub mod session;
pub mod stitch;
pub mod tiled;
pub mod worker;
