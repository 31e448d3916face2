//! The transform calculator: the affine map (uniform scale, translate,
//! mandatory vertical flip) that places a glyph's design-unit outline inside
//! a pixel viewport.
//!
//! Font coordinates grow upward while screen coordinates grow downward, so
//! every transform reflects the y axis. The scale is an exact rational
//! `num / den`; applying a transform keeps pixel coordinates as the integer
//! numerators over the common denominator `den`, so the whole pipeline is
//! exact and the one division happens only where a path is finally painted.
use vstd::prelude::*;

use crate::font::BoundingBox;
use crate::glyph_info::{DrawType, Outline};

verus! {

/// Target drawing area in pixels, as the host UI supplies it for one render
/// call.
#[derive(Debug, Clone, Copy, PartialEq, Eq, Structural)]
pub struct ViewportSize {
    pub width: u16,
    pub height: u16,
}

/// Upper bound on a transform's scale numerator: twice the largest available
/// axis (a viewport axis is at most `u16::MAX` pixels).
pub const SCALE_NUM_MAX: i64 = 0x40000;

/// Upper bound on a transform's scale denominator: twice the largest glyph
/// extent representable with `i32` bounding-box coordinates.
pub const SCALE_DEN_MAX: i64 = 0x4_0000_0000;

/// Upper bound on the magnitude of a transform's translation numerators;
/// generous enough for any viewport/bounding-box combination and small
/// enough that applying a transform stays inside `i64`.
pub const TRANSLATE_MAX: i64 = 0x8_0000_0000_0000;

/// An affine glyph-to-pixel map. The pixel position of the design-unit
/// point `(x, y)` is `((tx + num * x) / den, (ty - num * y) / den)` when
/// `flip_y` is set (the `- num * y` is the reflection); both axes share the
/// single scale `num / den`, so the glyph is never stretched.
#[derive(Debug, Clone, Copy, PartialEq, Eq, Structural)]
pub struct Transform {
    pub num: i64,
    pub den: i64,
    pub tx: i64,
    pub ty: i64,
    pub flip_y: bool,
}

impl Transform {
    /// The scale is positive and every field is small enough that applying
    /// the transform to any `i32` coordinate cannot overflow `i64`.
    pub open spec fn wf(self) -> bool {
        &&& 0 < self.num <= SCALE_NUM_MAX
        &&& 0 < self.den <= SCALE_DEN_MAX
        &&& -TRANSLATE_MAX <= self.tx <= TRANSLATE_MAX
        &&& -TRANSLATE_MAX <= self.ty <= TRANSLATE_MAX
    }
}

/// Pixel-numerator x coordinate of design-unit x under `t` (the pixel value
/// is this divided by `t.den`).
pub open spec fn spec_px(t: Transform, x: int) -> int {
    t.tx + t.num * x
}

/// Pixel-numerator y coordinate of design-unit y under `t`; the y axis is
/// reflected when `flip_y` is set.
pub open spec fn spec_py(t: Transform, y: int) -> int {
    if t.flip_y {
        t.ty - t.num * y
    } else {
        t.ty + t.num * y
    }
}

/// One path command in pixel-numerator space: the same five primitives as
/// `DrawType`, with coordinates that are exact numerators over the owning
/// path's denominator.
#[derive(Debug, Clone, Copy, PartialEq, Eq, Structural)]
pub enum PixelCommand {
    MoveTo { x: i64, y: i64 },
    LineTo { x: i64, y: i64 },
    QuadTo { x1: i64, y1: i64, x: i64, y: i64 },
    CurveTo { x1: i64, y1: i64, x2: i64, y2: i64, x: i64, y: i64 },
    Close,
}

/// A drawable path: commands in pixel-numerator space together with the
/// common denominator. The painting edge divides each coordinate by `den`.
#[derive(Debug, Clone, PartialEq)]
pub struct RenderedPath {
    pub den: i64,
    pub commands: Vec<PixelCommand>,
}

/// The image of one outline command under `t`, coordinate by coordinate.
/// The command's kind is always preserved: a transform moves points, it
/// never changes the path's topology.
pub open spec fn spec_apply_cmd(t: Transform, c: DrawType) -> PixelCommand {
    match c {
        DrawType::MoveTo { x, y } => PixelCommand::MoveTo {
            x: spec_px(t, x as int) as i64,
            y: spec_py(t, y as int) as i64,
        },
        DrawType::LineTo { x, y } => PixelCommand::LineTo {
            x: spec_px(t, x as int) as i64,
            y: spec_py(t, y as int) as i64,
        },
        DrawType::QuadTo { x1, y1, x, y } => PixelCommand::QuadTo {
            x1: spec_px(t, x1 as int) as i64,
            y1: spec_py(t, y1 as int) as i64,
            x: spec_px(t, x as int) as i64,
            y: spec_py(t, y as int) as i64,
        },
        DrawType::CurveTo { x1, y1, x2, y2, x, y } => PixelCommand::CurveTo {
            x1: spec_px(t, x1 as int) as i64,
            y1: spec_py(t, y1 as int) as i64,
            x2: spec_px(t, x2 as int) as i64,
            y2: spec_py(t, y2 as int) as i64,
            x: spec_px(t, x as int) as i64,
            y: spec_py(t, y as int) as i64,
        },
        DrawType::Close => PixelCommand::Close,
    }
}

/// The image of a whole command sequence under `t`, in order.
pub open spec fn spec_apply_seq(t: Transform, s: Seq<DrawType>) -> Seq<PixelCommand> {
    s.map_values(|c: DrawType| spec_apply_cmd(t, c))
}

/// Horizontal drawing area left once the margin is subtracted on both sides.
pub open spec fn spec_avail_w(viewport: ViewportSize, margin: u16) -> int {
    viewport.width - 2 * margin
}

/// Vertical drawing area left once the margin is subtracted on both sides.
pub open spec fn spec_avail_h(viewport: ViewportSize, margin: u16) -> int {
    viewport.height - 2 * margin
}

/// Whether a fit transform exists: the bounding box must be ordered, the
/// margin-inset viewport must have positive area, and at least one bounding
/// box axis must have positive extent (a single-point glyph has no defined
/// scale). When this is false there is nothing to draw; it is never an
/// error.
pub open spec fn transform_defined(bbox: BoundingBox, viewport: ViewportSize, margin: u16) -> bool {
    &&& bbox.wf()
    &&& spec_avail_w(viewport, margin) > 0
    &&& spec_avail_h(viewport, margin) > 0
    &&& (bbox.spec_width() > 0 || bbox.spec_height() > 0)
}

/// Numerator of the fitting scale: the available extent of whichever axis
/// binds. With both bounding-box extents positive the scale is
/// `min(avail_w / bbox_w, avail_h / bbox_h)`, compared exactly by
/// cross-multiplication; a zero-extent axis adopts the other axis's scale.
pub open spec fn spec_scale_num(bbox: BoundingBox, viewport: ViewportSize, margin: u16) -> int {
    let aw = spec_avail_w(viewport, margin);
    let ah = spec_avail_h(viewport, margin);
    if bbox.spec_width() > 0 && bbox.spec_height() > 0 {
        if aw * bbox.spec_height() <= ah * bbox.spec_width() {
            aw
        } else {
            ah
        }
    } else if bbox.spec_width() > 0 {
        aw
    } else {
        ah
    }
}

/// Denominator of the fitting scale: the bounding-box extent of the binding
/// axis (see `spec_scale_num`).
pub open spec fn spec_scale_den(bbox: BoundingBox, viewport: ViewportSize, margin: u16) -> int {
    let aw = spec_avail_w(viewport, margin);
    let ah = spec_avail_h(viewport, margin);
    if bbox.spec_width() > 0 && bbox.spec_height() > 0 {
        if aw * bbox.spec_height() <= ah * bbox.spec_width() {
            bbox.spec_width()
        } else {
            bbox.spec_height()
        }
    } else if bbox.spec_width() > 0 {
        bbox.spec_width()
    } else {
        bbox.spec_height()
    }
}

/// The fit transform, exactly: scale `a / b` doubled into `2a / 2b` so both
/// translations are integers; `tx` centers the glyph's horizontal midpoint
/// on the viewport's vertical center line; `ty` puts the font baseline
/// (design y = 0) at pixel `viewport.height - margin + descender * scale`,
/// anchoring the glyph so its descender region sits just above the bottom
/// margin; and the y axis is flipped.
pub open spec fn spec_fit_transform(
    bbox: BoundingBox,
    viewport: ViewportSize,
    margin: u16,
    descender: i16,
) -> Transform {
    let a = spec_scale_num(bbox, viewport, margin);
    let b = spec_scale_den(bbox, viewport, margin);
    Transform {
        num: (2 * a) as i64,
        den: (2 * b) as i64,
        tx: (viewport.width * b - (bbox.x_min + bbox.x_max) * a) as i64,
        ty: (2 * b * (viewport.height - margin) + 2 * a * descender) as i64,
        flip_y: true,
    }
}

/// A product of two values in known nonnegative ranges stays in the product
/// range.
pub(crate) proof fn lemma_mul_bound_nonneg(a: int, a_max: int, b: int, b_max: int)
    by (nonlinear_arith)
    requires
        0 <= a <= a_max,
        0 <= b <= b_max,
    ensures
        0 <= a * b <= a_max * b_max,
        a * b == b * a,
{
}

/// A product of a sign-unknown value and a nonnegative value is bounded by
/// the product of their bounds, in both directions and in both operand
/// orders.
pub(crate) proof fn lemma_mul_bound_abs(s: int, s_max: int, a: int, a_max: int)
    by (nonlinear_arith)
    requires
        -s_max <= s <= s_max,
        0 <= a <= a_max,
        0 <= s_max,
    ensures
        -(s_max * a_max) <= s * a <= s_max * a_max,
        s * a == a * s,
{
}

/// Computes the transform that fits `bbox` inside `viewport` with `margin`
/// pixels kept free on every side, or `None` when no transform is defined
/// (degenerate viewport, unordered or point-like bounding box) — the caller
/// skips drawing rather than failing.
pub fn compute_transform(
    bbox: &BoundingBox,
    viewport: ViewportSize,
    margin: u16,
    descender: i16,
) -> (r: Option<Transform>)
    ensures
        r is Some <==> transform_defined(*bbox, viewport, margin),
        r matches Some(t) ==> t == spec_fit_transform(*bbox, viewport, margin, descender),
        r matches Some(t) ==> t.wf(),
{
    let vw: i64 = viewport.width as i64;
    let vh: i64 = viewport.height as i64;
    let m: i64 = margin as i64;
    let aw: i64 = vw - 2 * m;
    let ah: i64 = vh - 2 * m;
    if aw <= 0 || ah <= 0 {
        return None;
    }
    if bbox.x_min > bbox.x_max || bbox.y_min > bbox.y_max {
        return None;
    }
    let bw: i64 = bbox.x_max as i64 - bbox.x_min as i64;
    let bh: i64 = bbox.y_max as i64 - bbox.y_min as i64;
    if bw == 0 && bh == 0 {
        return None;
    }
    let x_binds: bool = if bw > 0 && bh > 0 {
        proof {
            lemma_mul_bound_nonneg(aw as int, 0x10000, bh as int, 0x1_0000_0000);
            lemma_mul_bound_nonneg(ah as int, 0x10000, bw as int, 0x1_0000_0000);
        }
        aw * bh <= ah * bw
    } else {
        bw > 0
    };
    let a: i64 = if x_binds { aw } else { ah };
    let b: i64 = if x_binds { bw } else { bh };
    let sum: i64 = bbox.x_min as i64 + bbox.x_max as i64;
    proof {
        lemma_mul_bound_nonneg(vw as int, 0x10000, b as int, 0x1_0000_0000);
        lemma_mul_bound_abs(sum as int, 0x1_0000_0000, a as int, 0x10000);
        lemma_mul_bound_nonneg((vh - m) as int, 0x10000, 2 * b as int, 0x2_0000_0000);
        lemma_mul_bound_abs(descender as int, 0x8000, 2 * a as int, 0x20000);
    }
    let tx: i64 = vw * b - sum * a;
    let ty: i64 = 2 * b * (vh - m) + 2 * a * (descender as i64);
    Some(Transform { num: 2 * a, den: 2 * b, tx, ty, flip_y: true })
}

/// Pixel-numerator x coordinate of design-unit `x` under `t`.
fn px(t: &Transform, x: i32) -> (r: i64)
    requires
        t.wf(),
    ensures
        r == spec_px(*t, x as int),
{
    proof {
        lemma_mul_bound_abs(x as int, 0x8000_0000, t.num as int, SCALE_NUM_MAX as int);
    }
    t.tx + t.num * (x as i64)
}

/// Pixel-numerator y coordinate of design-unit `y` under `t`, reflected
/// when the transform flips the y axis.
pub(crate) fn py(t: &Transform, y: i32) -> (r: i64)
    requires
        t.wf(),
    ensures
        r == spec_py(*t, y as int),
{
    proof {
        lemma_mul_bound_abs(y as int, 0x8000_0000, t.num as int, SCALE_NUM_MAX as int);
    }
    if t.flip_y {
        t.ty - t.num * (y as i64)
    } else {
        t.ty + t.num * (y as i64)
    }
}

/// Maps one outline command into pixel-numerator space.
fn apply_cmd(t: &Transform, c: &DrawType) -> (r: PixelCommand)
    requires
        t.wf(),
    ensures
        r == spec_apply_cmd(*t, *c),
{
    match *c {
        DrawType::MoveTo { x, y } => PixelCommand::MoveTo { x: px(t, x), y: py(t, y) },
        DrawType::LineTo { x, y } => PixelCommand::LineTo { x: px(t, x), y: py(t, y) },
        DrawType::QuadTo { x1, y1, x, y } => PixelCommand::QuadTo {
            x1: px(t, x1),
            y1: py(t, y1),
            x: px(t, x),
            y: py(t, y),
        },
        DrawType::CurveTo { x1, y1, x2, y2, x, y } => PixelCommand::CurveTo {
            x1: px(t, x1),
            y1: py(t, y1),
            x2: px(t, x2),
            y2: py(t, y2),
            x: px(t, x),
            y: py(t, y),
        },
        DrawType::Close => PixelCommand::Close,
    }
}

/// Replays a recorded outline through `t`, producing the pixel-numerator
/// command list in the same order. Nothing is dropped, added or reordered;
/// only coordinates change.
pub fn apply_outline(t: &Transform, outline: &Outline) -> (r: Vec<PixelCommand>)
    requires
        t.wf(),
    ensures
        r@ == spec_apply_seq(*t, outline@),
{
    let n: usize = outline.0.len();
    let mut out: Vec<PixelCommand> = Vec::new();
    let mut i: usize = 0;
    while i < n
        invariant
            t.wf(),
            n == outline@.len(),
            i <= n,
            out@ == spec_apply_seq(*t, outline@.take(i as int)),
        decreases n - i,
    {
        out.push(apply_cmd(t, &outline.0[i]));
        proof {
            assert(outline@.take(i + 1 as int) =~= outline@.take(i as int).push(outline@[i as int]));
            assert(spec_apply_seq(*t, outline@.take(i + 1 as int)) =~= spec_apply_seq(
                *t,
                outline@.take(i as int),
            ).push(spec_apply_cmd(*t, outline@[i as int])));
        }
        i = i + 1;
    }
    proof {
        assert(outline@.take(n as int) =~= outline@);
    }
    out
}

/// Whether two pixel commands are the same primitive (move, line, quadratic,
/// cubic or close), whatever their coordinates.
pub open spec fn same_kind(a: PixelCommand, b: PixelCommand) -> bool {
    match (a, b) {
        (PixelCommand::MoveTo { .. }, PixelCommand::MoveTo { .. }) => true,
        (PixelCommand::LineTo { .. }, PixelCommand::LineTo { .. }) => true,
        (PixelCommand::QuadTo { .. }, PixelCommand::QuadTo { .. }) => true,
        (PixelCommand::CurveTo { .. }, PixelCommand::CurveTo { .. }) => true,
        (PixelCommand::Close, PixelCommand::Close) => true,
        _ => false,
    }
}

/// Whether two pixel command sequences have identical topology: the same
/// length and, position by position, the same primitive.
pub open spec fn same_shape(a: Seq<PixelCommand>, b: Seq<PixelCommand>) -> bool {
    a.len() == b.len() && forall|i: int| 0 <= i < a.len() ==> #[trigger] same_kind(a[i], b[i])
}

/// Replaying one recorded outline through two transforms — for instance the
/// fit transforms of two different viewport sizes — yields paths of
/// identical command topology: only coordinates differ.
pub proof fn lemma_apply_preserves_shape(t1: Transform, t2: Transform, s: Seq<DrawType>)
    ensures
        same_shape(spec_apply_seq(t1, s), spec_apply_seq(t2, s)),
{
    assert forall|i: int| 0 <= i < s.len() implies #[trigger] same_kind(
        spec_apply_seq(t1, s)[i],
        spec_apply_seq(t2, s)[i],
    ) by {
        assert(spec_apply_seq(t1, s)[i] == spec_apply_cmd(t1, s[i]));
        assert(spec_apply_seq(t2, s)[i] == spec_apply_cmd(t2, s[i]));
    }
}

/// Rendering is a function of the recorded command sequence and the
/// transform alone: outlines that recorded the same commands replay to
/// identical paths, however and whenever each was recorded.
pub proof fn lemma_replay_deterministic(first: Outline, second: Outline, t: Transform)
    requires
        first@ == second@,
    ensures
        spec_apply_seq(t, first@) == spec_apply_seq(t, second@),
{
}

/// For every input on which a fit transform is defined (ordered bounding box
/// with at least one positive extent, positive available area), the scale is
/// strictly positive, shared by both axes (`num / den` is the only scale the
/// transform holds), the y flip is set, and the scaled glyph extents fit
/// inside the available area: `num/den * extent <= avail` on each axis,
/// stated here by cross-multiplication.
pub proof fn lemma_fit_transform_valid(
    bbox: BoundingBox,
    viewport: ViewportSize,
    margin: u16,
    descender: i16,
)
    requires
        transform_defined(bbox, viewport, margin),
    ensures
        ({
            let t = spec_fit_transform(bbox, viewport, margin, descender);
            &&& 0 < t.num
            &&& 0 < t.den
            &&& t.flip_y
            &&& t.num * bbox.spec_width() <= spec_avail_w(viewport, margin) * t.den
            &&& t.num * bbox.spec_height() <= spec_avail_h(viewport, margin) * t.den
        }),
{
    let aw = spec_avail_w(viewport, margin);
    let ah = spec_avail_h(viewport, margin);
    let bw = bbox.spec_width();
    let bh = bbox.spec_height();
    let a = spec_scale_num(bbox, viewport, margin);
    let b = spec_scale_den(bbox, viewport, margin);
    let t = spec_fit_transform(bbox, viewport, margin, descender);
    assert(t.num == 2 * a && t.den == 2 * b);
    if bw > 0 && bh > 0 {
        if aw * bh <= ah * bw {
            assert(a == aw && b == bw);
            assert((2 * a) * bw <= aw * (2 * b) && (2 * a) * bh <= ah * (2 * b))
                by (nonlinear_arith)
                requires
                    a == aw,
                    b == bw,
                    aw * bh <= ah * bw,
            ;
        } else {
            assert(a == ah && b == bh);
            assert((2 * a) * bw <= aw * (2 * b) && (2 * a) * bh <= ah * (2 * b))
                by (nonlinear_arith)
                requires
                    a == ah,
                    b == bh,
                    ah * bw <= aw * bh,
            ;
        }
    } else if bw > 0 {
        assert(a == aw && b == bw && bh == 0);
        assert((2 * a) * bw <= aw * (2 * b) && (2 * a) * bh <= ah * (2 * b))
            by (nonlinear_arith)
            requires
                a == aw,
                b == bw,
                bh == 0,
                ah > 0,
                bw > 0,
        ;
    } else {
        assert(a == ah && b == bh && bw == 0);
        assert((2 * a) * bw <= aw * (2 * b) && (2 * a) * bh <= ah * (2 * b))
            by (nonlinear_arith)
            requires
                a == ah,
                b == bh,
                bw == 0,
                aw > 0,
                bh > 0,
        ;
    }
}

/// Every design-unit x between the bounding box's horizontal extents lands,
/// under the fit transform, inside the margin-inset viewport: the glyph is
/// centered and never painted over the margins. Pixel positions are the
/// numerators over `t.den`, so the bounds are cross-multiplied by it.
pub proof fn lemma_fit_transform_fits_horizontally(
    bbox: BoundingBox,
    viewport: ViewportSize,
    margin: u16,
    descender: i16,
    x: int,
)
    requires
        transform_defined(bbox, viewport, margin),
        bbox.x_min <= x <= bbox.x_max,
    ensures
        ({
            let t = spec_fit_transform(bbox, viewport, margin, descender);
            margin * t.den <= spec_px(t, x) <= (viewport.width - margin) * t.den
        }),
{
    let vw = viewport.width as int;
    let aw = spec_avail_w(viewport, margin);
    let bw = bbox.spec_width();
    let a = spec_scale_num(bbox, viewport, margin);
    let b = spec_scale_den(bbox, viewport, margin);
    let s = bbox.x_min + bbox.x_max;
    let t = spec_fit_transform(bbox, viewport, margin, descender);
    lemma_fit_transform_valid(bbox, viewport, margin, descender);
    lemma_mul_bound_nonneg(vw, 0x10000, b, 0x1_0000_0000);
    lemma_mul_bound_abs(s, 0x1_0000_0000, a, 0x10000);
    assert(t.num == 2 * a && t.den == 2 * b && t.tx == vw * b - s * a);
    assert(2 * t.tx == vw * t.den - s * t.num) by (nonlinear_arith)
        requires
            t.tx == vw * b - s * a,
            t.num == 2 * a,
            t.den == 2 * b,
    ;
    assert(margin * t.den <= t.tx + t.num * x <= (vw - margin) * t.den) by (nonlinear_arith)
        requires
            2 * t.tx == vw * t.den - s * t.num,
            t.num * (bbox.x_max - bbox.x_min) <= (vw - 2 * margin) * t.den,
            t.num >= 0,
            t.den > 0,
            bbox.x_min <= x <= bbox.x_max,
            s == bbox.x_min + bbox.x_max,
            margin >= 0,
    ;
}

/// Shrinking the viewport never increases the fitting scale: with the same
/// bounding box and margin, the scale computed for the smaller viewport is
/// at most the scale computed for the larger one. Scales are the rationals
/// `num/den`, compared here by cross-multiplication.
pub proof fn lemma_fit_scale_monotone(
    bbox: BoundingBox,
    large: ViewportSize,
    small: ViewportSize,
    margin: u16,
)
    requires
        transform_defined(bbox, large, margin),
        transform_defined(bbox, small, margin),
        small.width <= large.width,
        small.height <= large.height,
    ensures
        spec_scale_num(bbox, small, margin) * spec_scale_den(bbox, large, margin) <= spec_scale_num(
            bbox,
            large,
            margin,
        ) * spec_scale_den(bbox, small, margin),
{
    let aw1 = spec_avail_w(large, margin);
    let ah1 = spec_avail_h(large, margin);
    let aw2 = spec_avail_w(small, margin);
    let ah2 = spec_avail_h(small, margin);
    let bw = bbox.spec_width();
    let bh = bbox.spec_height();
    let a1 = spec_scale_num(bbox, large, margin);
    let b1 = spec_scale_den(bbox, large, margin);
    let a2 = spec_scale_num(bbox, small, margin);
    let b2 = spec_scale_den(bbox, small, margin);
    if bw > 0 && bh > 0 {
        if aw2 * bh <= ah2 * bw {
            if aw1 * bh <= ah1 * bw {
                assert(a2 * b1 <= a1 * b2) by (nonlinear_arith)
                    requires
                        a2 == aw2,
                        b2 == bw,
                        a1 == aw1,
                        b1 == bw,
                        aw2 <= aw1,
                        bw > 0,
                ;
            } else {
                assert(a2 * b1 <= a1 * b2) by (nonlinear_arith)
                    requires
                        a2 == aw2,
                        b2 == bw,
                        a1 == ah1,
                        b1 == bh,
                        aw2 * bh <= ah2 * bw,
                        ah2 <= ah1,
                        bw > 0,
                ;
            }
        } else {
            if aw1 * bh <= ah1 * bw {
                assert(a2 * b1 <= a1 * b2) by (nonlinear_arith)
                    requires
                        a2 == ah2,
                        b2 == bh,
                        a1 == aw1,
                        b1 == bw,
                        ah2 * bw <= aw2 * bh,
                        aw2 <= aw1,
                        bh > 0,
                ;
            } else {
                assert(a2 * b1 <= a1 * b2) by (nonlinear_arith)
                    requires
                        a2 == ah2,
                        b2 == bh,
                        a1 == ah1,
                        b1 == bh,
                        ah2 <= ah1,
                        bh > 0,
                ;
            }
        }
    } else if bw > 0 {
        assert(a2 * b1 <= a1 * b2) by (nonlinear_arith)
            requires
                a2 == aw2,
                b2 == bw,
                a1 == aw1,
                b1 == bw,
                aw2 <= aw1,
                bw > 0,
        ;
    } else {
        assert(a2 * b1 <= a1 * b2) by (nonlinear_arith)
            requires
                a2 == ah2,
                b2 == bh,
                a1 == ah1,
                b1 == bh,
                ah2 <= ah1,
                bh > 0,
        ;
    }
}

} // verus!
