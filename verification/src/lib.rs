//! Inspection library for TrueType/OpenType fonts: records glyph outlines as
//! renderer-agnostic command lists, computes the affine transform that fits a
//! glyph into a pixel viewport, lays out a paginated glyph-overview grid with
//! click hit-testing, and tracks glyph navigation state.
use vstd::prelude::*;

pub mod dialog;
pub mod font;
pub mod glyph_info;
pub mod glyph_canvas;
pub mod overview;
pub mod transform;
pub mod viewer;

verus! {

/// Why loading a font failed: the file could not be obtained (dialog
/// cancelled or failed, file unreadable), or the bytes are not a usable font.
#[derive(Debug, Clone, Copy, PartialEq, Eq, Structural)]
pub enum LoadError {
    FileError,
    FormatError,
}

} // verus!
