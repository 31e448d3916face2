//! The grid overview renderer: lays out the first `ROWS * COLUMNS` glyphs in
//! a fixed-cell grid, all at one shared scale so their relative sizes stay
//! meaningful, and maps pointer clicks back to glyph ids by inverse cell
//! arithmetic.
use vstd::prelude::*;

use crate::font::{BoundingBox, FontMetrics};
use crate::glyph_info::Outline;
use crate::transform::{
    apply_outline, lemma_mul_bound_nonneg, spec_apply_seq, RenderedPath, PixelCommand, Transform,
};

verus! {

/// Grid height, in cells.
pub const ROWS: u16 = 5;

/// Grid width, in cells.
pub const COLUMNS: u16 = 10;

/// Side length of one (square) grid cell, in pixels.
pub const CELL_SIZE: u16 = 60;

/// Horizontal offset of a cell's id label from the cell's left edge.
pub const LABEL_OFFSET_X: u16 = 3;

/// Vertical offset of a cell's id label from the cell's top edge.
pub const LABEL_OFFSET_Y: u16 = 13;

/// What the overview emits when a populated cell is clicked.
#[derive(Debug, Clone, Copy, PartialEq, Eq, Structural)]
pub enum OverviewMessage {
    ClickGlyph(u16),
}

/// Row of the cell containing canvas pixel row `y`.
pub open spec fn spec_hit_row(y: int) -> int {
    y / (CELL_SIZE as int)
}

/// Column of the cell containing canvas pixel column `x`.
pub open spec fn spec_hit_col(x: int) -> int {
    x / (CELL_SIZE as int)
}

/// The glyph id displayed in the cell containing pixel `(x, y)`: cells are
/// filled in row-major order, so it is `row * COLUMNS + col`.
pub open spec fn spec_hit_id(x: int, y: int) -> int {
    spec_hit_row(y) * (COLUMNS as int) + spec_hit_col(x)
}

/// Maps a click at canvas position `(x, y)` back to the glyph shown there.
/// Clicks outside the grid's populated cells — beyond its rows or columns,
/// or on a cell whose id is not below `number_of_glyphs` — are a no-op.
pub fn hit_test(x: u32, y: u32, number_of_glyphs: u16) -> (r: Option<OverviewMessage>)
    ensures
        r is Some <==> spec_hit_row(y as int) < ROWS && spec_hit_col(x as int) < COLUMNS
            && spec_hit_id(x as int, y as int) < number_of_glyphs,
        r matches Some(m) ==> m == OverviewMessage::ClickGlyph(
            spec_hit_id(x as int, y as int) as u16,
        ),
{
    let row: u32 = y / 60;
    let col: u32 = x / 60;
    proof {
        assert(CELL_SIZE == 60 && ROWS == 5 && COLUMNS == 10);
    }
    if row < 5 && col < 10 {
        let id: u16 = (row as u16) * 10 + (col as u16);
        if id < number_of_glyphs {
            Some(OverviewMessage::ClickGlyph(id))
        } else {
            None
        }
    } else {
        None
    }
}

/// A click at the pixel center of cell `(row, col)` maps back to exactly the
/// glyph id laid out there: the hit-test inverts the grid layout.
pub proof fn lemma_hit_test_center(row: u16, col: u16)
    requires
        row < ROWS,
        col < COLUMNS,
    ensures
        spec_hit_row(row * CELL_SIZE + CELL_SIZE / 2) == row,
        spec_hit_col(col * CELL_SIZE + CELL_SIZE / 2) == col,
        spec_hit_id(col * CELL_SIZE + CELL_SIZE / 2, row * CELL_SIZE + CELL_SIZE / 2) == row
            * COLUMNS + col,
{
    vstd::arithmetic::div_mod::lemma_fundamental_div_mod_converse(
        row * CELL_SIZE + CELL_SIZE / 2,
        CELL_SIZE as int,
        row as int,
        CELL_SIZE as int / 2,
    );
    vstd::arithmetic::div_mod::lemma_fundamental_div_mod_converse(
        col * CELL_SIZE + CELL_SIZE / 2,
        CELL_SIZE as int,
        col as int,
        CELL_SIZE as int / 2,
    );
}

/// Column of the grid cell with layout index `index` (row-major order).
pub open spec fn spec_cell_col(index: int) -> int {
    index % (COLUMNS as int)
}

/// Row of the grid cell with layout index `index`.
pub open spec fn spec_cell_row(index: int) -> int {
    index / (COLUMNS as int)
}

/// Pixel x of the left edge of cell `index`.
pub open spec fn spec_cell_origin_x(index: int) -> int {
    spec_cell_col(index) * (CELL_SIZE as int)
}

/// Pixel y of the top edge of cell `index`.
pub open spec fn spec_cell_origin_y(index: int) -> int {
    spec_cell_row(index) * (CELL_SIZE as int)
}

/// Pixel position where cell `index` draws its glyph-id label: just inside
/// the cell's top-left corner.
pub fn label_anchor(index: u16) -> (r: (u32, u32))
    requires
        index < ROWS * COLUMNS,
    ensures
        r.0 == spec_cell_origin_x(index as int) + LABEL_OFFSET_X,
        r.1 == spec_cell_origin_y(index as int) + LABEL_OFFSET_Y,
{
    proof {
        assert(CELL_SIZE == 60 && COLUMNS == 10 && LABEL_OFFSET_X == 3 && LABEL_OFFSET_Y == 13);
    }
    let col: u16 = index % 10;
    let row: u16 = index / 10;
    ((col as u32) * 60 + 3, (row as u32) * 60 + 13)
}

/// Whether a per-cell transform exists for this bounding box and font: the
/// box must be ordered and the font's line height positive (the shared grid
/// scale is `CELL_SIZE / height`). When false the cell stays empty.
pub open spec fn cell_transform_defined(bbox: BoundingBox, metrics: FontMetrics) -> bool {
    bbox.wf() && metrics.height > 0
}

/// The transform for the glyph in cell `index`: the grid's shared scale
/// `CELL_SIZE / height` (not a per-glyph fit), doubled into `2a / 2b` form
/// exactly as the fit transform is; `tx` centers the glyph's horizontal
/// midpoint on the cell's center line; `ty` puts the font baseline at the
/// cell's bottom edge offset by `descender * scale`; the y axis is flipped.
pub open spec fn spec_cell_transform(index: int, bbox: BoundingBox, metrics: FontMetrics) -> Transform {
    let h = metrics.height as int;
    let cx = spec_cell_origin_x(index);
    let cy = spec_cell_origin_y(index);
    Transform {
        num: (2 * CELL_SIZE) as i64,
        den: (2 * h) as i64,
        tx: ((2 * cx + CELL_SIZE) * h - (bbox.x_min + bbox.x_max) * CELL_SIZE) as i64,
        ty: (2 * h * (cy + CELL_SIZE) + 2 * CELL_SIZE * metrics.descender) as i64,
        flip_y: true,
    }
}

/// Computes the transform that places a glyph inside cell `index` at the
/// grid's shared scale, or `None` when no transform is defined (unordered
/// bounding box, or a font whose line height is not positive) — the cell is
/// then skipped, never an error.
pub fn cell_transform(index: u16, bbox: &BoundingBox, metrics: &FontMetrics) -> (r: Option<
    Transform,
>)
    requires
        index < ROWS * COLUMNS,
    ensures
        r is Some <==> cell_transform_defined(*bbox, *metrics),
        r matches Some(t) ==> t == spec_cell_transform(index as int, *bbox, *metrics),
        r matches Some(t) ==> t.wf(),
{
    if metrics.height <= 0 {
        return None;
    }
    if bbox.x_min > bbox.x_max || bbox.y_min > bbox.y_max {
        return None;
    }
    proof {
        assert(CELL_SIZE == 60 && ROWS == 5 && COLUMNS == 10);
        assert(ROWS * COLUMNS == 5 * COLUMNS);
    }
    let h: i64 = metrics.height as i64;
    let col: u16 = index % 10;
    let row: u16 = index / 10;
    let cx: i64 = (col as i64) * 60;
    let cy: i64 = (row as i64) * 60;
    let sum: i64 = bbox.x_min as i64 + bbox.x_max as i64;
    proof {
        lemma_mul_bound_nonneg((2 * cx + 60) as int, 0x500, h as int, 0x8000_0000);
        lemma_mul_bound_nonneg((2 * h) as int, 0x1_0000_0000, (cy + 60) as int, 0x200);
    }
    let tx: i64 = (2 * cx + 60) * h - sum * 60;
    let ty: i64 = 2 * h * (cy + 60) + 120 * (metrics.descender as i64);
    Some(Transform { num: 120, den: 2 * h, tx, ty, flip_y: true })
}

/// Unlike the single-glyph view, which fits each glyph individually, every
/// grid cell uses the one shared scale `CELL_SIZE / height` — so the
/// glyphs' relative sizes stay meaningful — and cells in the same row put
/// the font baseline on the same pixel row, whatever each glyph's extents
/// are: the cell transform's scale and vertical translation do not depend
/// on the bounding box at all.
pub proof fn lemma_grid_shared_scale_and_baseline(
    i: int,
    j: int,
    b1: BoundingBox,
    b2: BoundingBox,
    metrics: FontMetrics,
)
    requires
        spec_cell_row(i) == spec_cell_row(j),
    ensures
        spec_cell_transform(i, b1, metrics).num == spec_cell_transform(j, b2, metrics).num,
        spec_cell_transform(i, b1, metrics).den == spec_cell_transform(j, b2, metrics).den,
        spec_cell_transform(i, b1, metrics).ty == spec_cell_transform(j, b2, metrics).ty,
{
}

/// Everything the grid needs for one glyph: its bounding box (absent for
/// invisible glyphs) and its recorded outline.
#[derive(Debug, Clone, PartialEq)]
pub struct GlyphData {
    pub bbox: Option<BoundingBox>,
    pub outline: Outline,
}

/// Whether `r` is the correct rendering of glyph `g` in cell `index`: the
/// outline replayed through the cell transform when the glyph has a bounding
/// box and the transform is defined, nothing otherwise.
pub open spec fn cell_rendered(
    r: Option<RenderedPath>,
    index: int,
    g: GlyphData,
    metrics: FontMetrics,
) -> bool {
    match g.bbox {
        Some(b) => {
            if cell_transform_defined(b, metrics) {
                &&& r matches Some(p)
                &&& p.den == spec_cell_transform(index, b, metrics).den
                &&& p.commands@ == spec_apply_seq(spec_cell_transform(index, b, metrics), g.outline@)
            } else {
                r is None
            }
        },
        None => r is None,
    }
}

/// Renders the glyph of one grid cell, or nothing when the glyph is
/// invisible or no cell transform is defined.
pub fn render_cell(index: u16, g: &GlyphData, metrics: &FontMetrics) -> (r: Option<RenderedPath>)
    requires
        index < ROWS * COLUMNS,
    ensures
        cell_rendered(r, index as int, *g, *metrics),
{
    match &g.bbox {
        Some(bbox) => {
            match cell_transform(index, bbox, metrics) {
                Some(t) => Some(RenderedPath { den: t.den, commands: apply_outline(&t, &g.outline) }),
                None => None,
            }
        },
        None => None,
    }
}

/// How many grid cells are populated for a font with `n` glyphs available:
/// all of them, up to the grid's capacity.
pub open spec fn spec_grid_count(n: int) -> int {
    let cap = (ROWS * COLUMNS) as int;
    if n <= cap {
        n
    } else {
        cap
    }
}

/// Renders the overview: glyphs `0 .. min(ROWS * COLUMNS, glyphs.len())` in
/// row-major cells, every one at the grid's shared scale. Entry `i` of the
/// result is cell `i`'s path, or nothing where the cell stays empty.
pub fn render_overview(glyphs: &Vec<GlyphData>, metrics: &FontMetrics) -> (r: Vec<
    Option<RenderedPath>,
>)
    ensures
        r@.len() == spec_grid_count(glyphs@.len() as int),
        forall|i: int| 0 <= i < r@.len() ==> cell_rendered(#[trigger] r@[i], i, glyphs@[i], *metrics),
{
    proof {
        assert(ROWS * COLUMNS == 5 * COLUMNS);
    }
    let cap: usize = 50;
    let n: usize = if glyphs.len() <= cap {
        glyphs.len()
    } else {
        cap
    };
    let mut out: Vec<Option<RenderedPath>> = Vec::new();
    let mut i: usize = 0;
    while i < n
        invariant
            n == spec_grid_count(glyphs@.len() as int),
            n <= glyphs@.len(),
            n <= (ROWS * COLUMNS) as int,
            i <= n,
            out@.len() == i,
            forall|j: int| 0 <= j < i ==> cell_rendered(#[trigger] out@[j], j, glyphs@[j], *metrics),
        decreases n - i,
    {
        out.push(render_cell(i as u16, &glyphs[i], metrics));
        i = i + 1;
    }
    out
}

/// The grid's separator lines as one drawable path in whole pixels
/// (denominator 1): a vertical line after each column and a horizontal line
/// after each row, plus the leading edges, drawn one pixel in.
pub fn grid_lines() -> (r: RenderedPath)
    ensures
        r.den == 1,
        r.commands@.len() == 2 * (COLUMNS + 1) + 2 * (ROWS + 1),
        forall|k: int|
            0 <= k <= COLUMNS ==> #[trigger] r.commands@[2 * k] == (PixelCommand::MoveTo {
                x: (1 + k * CELL_SIZE) as i64,
                y: 0,
            }) && r.commands@[2 * k + 1] == (PixelCommand::LineTo {
                x: (1 + k * CELL_SIZE) as i64,
                y: (ROWS * CELL_SIZE) as i64,
            }),
        forall|k: int|
            0 <= k <= ROWS ==> #[trigger] r.commands@[2 * (COLUMNS + 1) + 2 * k] == (
            PixelCommand::MoveTo { x: 0, y: (1 + k * CELL_SIZE) as i64 }) && r.commands@[2 * (
                COLUMNS + 1) + 2 * k + 1] == (PixelCommand::LineTo {
                x: (COLUMNS * CELL_SIZE) as i64,
                y: (1 + k * CELL_SIZE) as i64,
            }),
{
    proof {
        assert(CELL_SIZE == 60 && ROWS == 5 && COLUMNS == 10);
        assert(ROWS * CELL_SIZE == 5 * CELL_SIZE && COLUMNS * CELL_SIZE == 10 * CELL_SIZE);
    }
    let height: i64 = 300;
    let width: i64 = 600;
    let mut commands: Vec<PixelCommand> = Vec::new();
    let mut k: u16 = 0;
    while k <= COLUMNS
        invariant
            k <= COLUMNS + 1,
            height == (ROWS * CELL_SIZE) as int,
            commands@.len() == 2 * k,
            forall|j: int|
                0 <= j < k ==> #[trigger] commands@[2 * j] == (PixelCommand::MoveTo {
                    x: (1 + j * CELL_SIZE) as i64,
                    y: 0,
                }) && commands@[2 * j + 1] == (PixelCommand::LineTo {
                    x: (1 + j * CELL_SIZE) as i64,
                    y: (ROWS * CELL_SIZE) as i64,
                }),
        decreases COLUMNS + 1 - k,
    {
        let x: i64 = 1 + (k as i64) * 60;
        commands.push(PixelCommand::MoveTo { x, y: 0 });
        commands.push(PixelCommand::LineTo { x, y: height });
        k = k + 1;
    }
    let vertical_len: u16 = 2 * (COLUMNS + 1);
    let mut k: u16 = 0;
    while k <= ROWS
        invariant
            k <= ROWS + 1,
            width == (COLUMNS * CELL_SIZE) as int,
            vertical_len == 2 * (COLUMNS + 1),
            commands@.len() == vertical_len + 2 * k,
            forall|j: int|
                0 <= j <= COLUMNS ==> #[trigger] commands@[2 * j] == (PixelCommand::MoveTo {
                    x: (1 + j * CELL_SIZE) as i64,
                    y: 0,
                }) && commands@[2 * j + 1] == (PixelCommand::LineTo {
                    x: (1 + j * CELL_SIZE) as i64,
                    y: (ROWS * CELL_SIZE) as i64,
                }),
            forall|j: int|
                0 <= j < k ==> #[trigger] commands@[2 * (COLUMNS + 1) + 2 * j] == (
                PixelCommand::MoveTo { x: 0, y: (1 + j * CELL_SIZE) as i64 }) && commands@[2 * (
                    COLUMNS + 1) + 2 * j + 1] == (PixelCommand::LineTo {
                    x: (COLUMNS * CELL_SIZE) as i64,
                    y: (1 + j * CELL_SIZE) as i64,
                }),
        decreases ROWS + 1 - k,
    {
        let y: i64 = 1 + (k as i64) * 60;
        commands.push(PixelCommand::MoveTo { x: 0, y });
        commands.push(PixelCommand::LineTo { x: width, y });
        k = k + 1;
    }
    RenderedPath { den: 1, commands }
}

/// Whether `cells` is the correct overview rendering for `glyphs`.
pub open spec fn cells_rendered(
    cells: Seq<Option<RenderedPath>>,
    glyphs: Seq<GlyphData>,
    metrics: FontMetrics,
) -> bool {
    &&& cells.len() == spec_grid_count(glyphs.len() as int)
    &&& forall|i: int| 0 <= i < cells.len() ==> cell_rendered(#[trigger] cells[i], i, glyphs[i], metrics)
}

/// The overview's state: one cached set of per-cell paths, keyed — like the
/// single-glyph renderer's cache — on explicit invalidation, not on content.
#[derive(Debug, PartialEq)]
pub struct State {
    pub cache: Option<Vec<Option<RenderedPath>>>,
}

impl State {
    /// An overview with a cold cache.
    pub fn new() -> (r: State)
        ensures
            r.cache is None,
    {
        State { cache: None }
    }

    /// Draws the overview: on a warm cache, leaves the cached cells
    /// untouched; on a cold cache, renders every populated cell and caches
    /// the result.
    pub fn draw(&mut self, glyphs: &Vec<GlyphData>, metrics: &FontMetrics)
        ensures
            old(self).cache is Some ==> *final(self) == *old(self),
            old(self).cache is None ==> (final(self).cache matches Some(cells) && cells_rendered(
                cells@,
                glyphs@,
                *metrics,
            )),
    {
        if self.cache.is_none() {
            self.cache = Some(render_overview(glyphs, metrics));
        }
    }

    /// Clears the cache unconditionally; the next draw recomputes.
    pub fn request_redraw(&mut self)
        ensures
            final(self).cache is None,
    {
        self.cache = None;
    }
}

} // verus!
