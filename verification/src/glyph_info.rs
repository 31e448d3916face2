//! The outline recorder and per-glyph navigation data.
//!
//! The font parser walks a glyph's contours and emits path-construction
//! commands through a five-method sink; `Outline` records them, in order and
//! unfiltered, as a reusable, renderer-agnostic command list.
use vstd::prelude::*;

use crate::font::BoundingBox;

verus! {

/// One primitive outline-construction command, in font design units.
///
/// A glyph may contain several disjoint contours, each bracketed by its own
/// `MoveTo` ... `Close`; `Close` ends the current subpath only, and a later
/// `MoveTo` starts a new subpath within the same sequence.
#[derive(Debug, Clone, Copy, PartialEq, Eq, Structural)]
pub enum DrawType {
    MoveTo { x: i32, y: i32 },
    LineTo { x: i32, y: i32 },
    QuadTo { x1: i32, y1: i32, x: i32, y: i32 },
    CurveTo { x1: i32, y1: i32, x2: i32, y2: i32, x: i32, y: i32 },
    Close,
}

/// A recorded glyph outline: the parser's commands in emission order.
///
/// Fidelity is the contract: recording neither reorders, deduplicates nor
/// filters. An empty sequence (the parser emitted nothing) renders as
/// "nothing to draw", never as an error. The sequence is immutable once the
/// glyph's traversal is finished; its view is the sequence itself.
#[derive(Debug, Clone, PartialEq)]
pub struct Outline(pub Vec<DrawType>);

impl View for Outline {
    type V = Seq<DrawType>;

    open spec fn view(&self) -> Seq<DrawType> {
        self.0@
    }
}

impl Outline {
    /// An outline with nothing recorded yet.
    pub fn new() -> (r: Outline)
        ensures
            r@ == Seq::<DrawType>::empty(),
    {
        Outline(Vec::new())
    }

    /// Records the start of a new subpath at `(x, y)`.
    pub fn move_to(&mut self, x: i32, y: i32)
        ensures
            final(self)@ == old(self)@.push(DrawType::MoveTo { x, y }),
    {
        self.0.push(DrawType::MoveTo { x, y });
    }

    /// Records a straight segment to `(x, y)`.
    pub fn line_to(&mut self, x: i32, y: i32)
        ensures
            final(self)@ == old(self)@.push(DrawType::LineTo { x, y }),
    {
        self.0.push(DrawType::LineTo { x, y });
    }

    /// Records a quadratic curve with control point `(x1, y1)` ending at
    /// `(x, y)`.
    pub fn quad_to(&mut self, x1: i32, y1: i32, x: i32, y: i32)
        ensures
            final(self)@ == old(self)@.push(DrawType::QuadTo { x1, y1, x, y }),
    {
        self.0.push(DrawType::QuadTo { x1, y1, x, y });
    }

    /// Records a cubic curve with control points `(x1, y1)` and `(x2, y2)`
    /// ending at `(x, y)`.
    pub fn curve_to(&mut self, x1: i32, y1: i32, x2: i32, y2: i32, x: i32, y: i32)
        ensures
            final(self)@ == old(self)@.push(DrawType::CurveTo { x1, y1, x2, y2, x, y }),
    {
        self.0.push(DrawType::CurveTo { x1, y1, x2, y2, x, y });
    }

    /// Records the end of the current subpath.
    pub fn close(&mut self)
        ensures
            final(self)@ == old(self)@.push(DrawType::Close),
    {
        self.0.push(DrawType::Close);
    }

    /// Number of recorded commands.
    pub fn len(&self) -> (n: usize)
        ensures
            n == self@.len(),
    {
        self.0.len()
    }
}

/// The currently inspected glyph: its id, its bounding box (absent for
/// glyphs with no visible outline, such as a space) and its recorded
/// outline (absent until the parser has been asked for it).
#[derive(Debug, Clone, PartialEq)]
pub struct GlyphInfo {
    pub id: u16,
    pub bbox: Option<BoundingBox>,
    pub outline: Option<Outline>,
}

/// The glyph id reached by one `Next` step among `number_of_glyphs` glyphs:
/// one forward, except at the last id, where the step is a no-op.
pub open spec fn spec_next(id: u16, number_of_glyphs: u16) -> u16 {
    if id + 1 < number_of_glyphs {
        (id + 1) as u16
    } else {
        id
    }
}

/// The glyph id reached by one `Prev` step: one back, except at id 0, where
/// the step is a no-op.
pub open spec fn spec_prev(id: u16) -> u16 {
    if id > 0 {
        (id - 1) as u16
    } else {
        id
    }
}

impl GlyphInfo {
    /// The initial navigation state: glyph 0, nothing computed yet.
    pub fn new() -> (r: GlyphInfo)
        ensures
            r.id == 0,
            r.bbox is None,
            r.outline is None,
    {
        GlyphInfo { id: 0, bbox: None, outline: None }
    }

    /// Advances to the next glyph id if one exists; at the last id this is a
    /// no-op. Returns whether the id changed. Bounding box and outline are
    /// left untouched; the caller recomputes them when the id moved.
    pub fn next(&mut self, number_of_glyphs: u16) -> (moved: bool)
        ensures
            final(self).id == spec_next(old(self).id, number_of_glyphs),
            moved <==> final(self).id != old(self).id,
            final(self).bbox == old(self).bbox,
            final(self).outline == old(self).outline,
    {
        if self.id < u16::MAX && self.id + 1 < number_of_glyphs {
            self.id = self.id + 1;
            true
        } else {
            false
        }
    }

    /// Retreats to the previous glyph id if one exists; at id 0 this is a
    /// no-op. Returns whether the id changed.
    pub fn prev(&mut self) -> (moved: bool)
        ensures
            final(self).id == spec_prev(old(self).id),
            moved <==> final(self).id != old(self).id,
            final(self).bbox == old(self).bbox,
            final(self).outline == old(self).outline,
    {
        if self.id > 0 {
            self.id = self.id - 1;
            true
        } else {
            false
        }
    }
}

/// `Next` then `Prev` from any interior id comes back to that id.
pub proof fn lemma_next_prev_roundtrip(id: u16, number_of_glyphs: u16)
    requires
        id + 1 < number_of_glyphs,
    ensures
        spec_prev(spec_next(id, number_of_glyphs)) == id,
{
}

/// `Prev` at id 0 and `Next` at the last id are no-ops.
pub proof fn lemma_nav_bounds(number_of_glyphs: u16)
    requires
        number_of_glyphs >= 1,
    ensures
        spec_prev(0) == 0,
        spec_next((number_of_glyphs - 1) as u16, number_of_glyphs) == number_of_glyphs - 1,
{
}

} // verus!
