use vstd::prelude::*;

pub mod arith;
pub mod capture;
pub mod caret;
pub mod clipboard;
pub mod color;
pub mod cursor;
pub mod export;
pub mod frame;
pub mod geometry;
pub mod history;
pub mod locator;
pub mod hotkey;
pub mod keys;
pub mod ocr;
pub mod output;
pub mod overlay;
pub mod pixels;
pub mod platform;
pub mod preview;
pub mod save;
pub mod scroll;
pub mod text;
pub mod tool;
pub mod toolbar;
pub mod window;
