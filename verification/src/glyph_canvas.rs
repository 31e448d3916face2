//! The single-glyph renderer: composes the recorded outline with the fit
//! transform into one drawable path, behind a redraw cache.
//!
//! The cache is invalidation-keyed, not content-keyed: repeated draw calls
//! return the cached path untouched until `request_redraw` clears it, and
//! every state-changing transition (navigation, font load, resize) is
//! expected to request a redraw.
use vstd::prelude::*;

use crate::font::FontMetrics;
use crate::glyph_info::GlyphInfo;
use crate::font::BoundingBox;
use crate::transform::{
    apply_outline, compute_transform, lemma_mul_bound_nonneg, py, spec_apply_seq, spec_py,
    spec_fit_transform, transform_defined, PixelCommand, RenderedPath, ViewportSize,
    SCALE_DEN_MAX,
};

verus! {

/// Pixels kept free on every side of the viewport when fitting a glyph.
pub const GLYPH_MARGIN: u16 = 5;

/// Whether there is anything to draw for `glyph` in `viewport`: a bounding
/// box (absent for invisible glyphs such as a space), a recorded outline,
/// and a defined fit transform. When false, rendering yields nothing — by
/// design, never an error.
pub open spec fn glyph_drawable(glyph: GlyphInfo, viewport: ViewportSize) -> bool {
    &&& glyph.bbox matches Some(b) && transform_defined(b, viewport, GLYPH_MARGIN)
    &&& glyph.outline is Some
}

/// Whether `path` is exactly the drawable path for `glyph`: the outline's
/// commands replayed, in order and in full, through the fit transform of
/// `viewport` with the standard margin and the font's descender.
pub open spec fn path_renders(
    path: RenderedPath,
    glyph: GlyphInfo,
    metrics: FontMetrics,
    viewport: ViewportSize,
) -> bool {
    &&& glyph_drawable(glyph, viewport)
    &&& ({
        let t = spec_fit_transform(glyph.bbox->0, viewport, GLYPH_MARGIN, metrics.descender);
        path.den == t.den && path.commands@ == spec_apply_seq(t, glyph.outline->0@)
    })
}

/// Renders one glyph into a drawable path, or nothing when the glyph has no
/// bounding box (nothing visible), no recorded outline yet, or no defined
/// transform (degenerate viewport or point-like bounding box).
pub fn render_glyph(glyph: &GlyphInfo, metrics: &FontMetrics, viewport: ViewportSize) -> (r:
    Option<RenderedPath>)
    ensures
        r is Some <==> glyph_drawable(*glyph, viewport),
        r matches Some(p) ==> path_renders(p, *glyph, *metrics, viewport),
{
    match (&glyph.bbox, &glyph.outline) {
        (Some(bbox), Some(outline)) => {
            match compute_transform(bbox, viewport, GLYPH_MARGIN, metrics.descender) {
                Some(t) => Some(
                    RenderedPath { den: t.den, commands: apply_outline(&t, outline) },
                ),
                None => None,
            }
        },
        _ => None,
    }
}

/// The metric guide lines of the single-glyph view: for each of the baseline
/// (design y = 0), the ascender and the descender, in that order, one
/// horizontal ruler across the viewport's full width at that line's pixel
/// row under the glyph's fit transform. The host paints them under the glyph
/// and labels each beside its left end. Nothing is drawn exactly when no fit
/// transform is defined for the bounding box and viewport.
pub fn metric_rulers(bbox: &BoundingBox, metrics: &FontMetrics, viewport: ViewportSize) -> (r:
    Option<RenderedPath>)
    ensures
        r is Some <==> transform_defined(*bbox, viewport, GLYPH_MARGIN),
        r matches Some(p) ==> ({
            let t = spec_fit_transform(*bbox, viewport, GLYPH_MARGIN, metrics.descender);
            &&& p.den == t.den
            &&& p.commands@ =~= seq![
                (PixelCommand::MoveTo { x: 0, y: spec_py(t, 0) as i64 }),
                (PixelCommand::LineTo {
                    x: (viewport.width * t.den) as i64,
                    y: spec_py(t, 0) as i64,
                }),
                (PixelCommand::MoveTo { x: 0, y: spec_py(t, metrics.ascender as int) as i64 }),
                (PixelCommand::LineTo {
                    x: (viewport.width * t.den) as i64,
                    y: spec_py(t, metrics.ascender as int) as i64,
                }),
                (PixelCommand::MoveTo { x: 0, y: spec_py(t, metrics.descender as int) as i64 }),
                (PixelCommand::LineTo {
                    x: (viewport.width * t.den) as i64,
                    y: spec_py(t, metrics.descender as int) as i64,
                }),
            ]
        }),
{
    match compute_transform(bbox, viewport, GLYPH_MARGIN, metrics.descender) {
        Some(t) => {
            proof {
                lemma_mul_bound_nonneg(viewport.width as int, 0x10000, t.den as int, SCALE_DEN_MAX as int);
            }
            let width: i64 = (viewport.width as i64) * t.den;
            let baseline_y: i64 = py(&t, 0);
            let ascender_y: i64 = py(&t, metrics.ascender as i32);
            let descender_y: i64 = py(&t, metrics.descender as i32);
            let mut commands: Vec<PixelCommand> = Vec::new();
            commands.push(PixelCommand::MoveTo { x: 0, y: baseline_y });
            commands.push(PixelCommand::LineTo { x: width, y: baseline_y });
            commands.push(PixelCommand::MoveTo { x: 0, y: ascender_y });
            commands.push(PixelCommand::LineTo { x: width, y: ascender_y });
            commands.push(PixelCommand::MoveTo { x: 0, y: descender_y });
            commands.push(PixelCommand::LineTo { x: width, y: descender_y });
            Some(RenderedPath { den: t.den, commands })
        },
        None => None,
    }
}

/// The renderer's state: one cached drawable path. An empty render result
/// (nothing to draw) is not cached; it is recomputed, cheaply, per call.
#[derive(Debug, PartialEq)]
pub struct State {
    pub cache: Option<RenderedPath>,
}

impl State {
    /// A renderer with a cold cache.
    pub fn new() -> (r: State)
        ensures
            r.cache is None,
    {
        State { cache: None }
    }

    /// Draws the current glyph: on a warm cache, hands back the cached path
    /// without recomputation (whatever was drawn before — the cache is keyed
    /// on invalidation, not on content); on a cold cache, renders the glyph
    /// and caches the result. Returns whether there is a path to paint.
    pub fn draw(&mut self, glyph: &GlyphInfo, metrics: &FontMetrics, viewport: ViewportSize) -> (drew:
        bool)
        ensures
            drew <==> final(self).cache is Some,
            old(self).cache is Some ==> *final(self) == *old(self),
            old(self).cache is None ==> (final(self).cache is Some <==> glyph_drawable(
                *glyph,
                viewport,
            )),
            old(self).cache is None ==> (final(self).cache matches Some(p) ==> path_renders(
                p,
                *glyph,
                *metrics,
                viewport,
            )),
    {
        if self.cache.is_some() {
            return true;
        }
        self.cache = render_glyph(glyph, metrics, viewport);
        self.cache.is_some()
    }

    /// Clears the cache unconditionally; the next draw recomputes.
    pub fn request_redraw(&mut self)
        ensures
            final(self).cache is None,
    {
        self.cache = None;
    }
}

} // verus!
