//! Font-level data: glyph bounding boxes and the metrics needed by the
//! transform pipeline, with the validation that loading performs.
use vstd::prelude::*;

use crate::LoadError;
use owned_ttf_parser::AsFaceRef;

verus! {

/// Inclusive extents of a glyph outline, in font design units. Both `min` and
/// `max` are inclusive, as the font parser reports them; a glyph with no
/// visible outline has no bounding box at all (`Option<BoundingBox>` is
/// `None`), which consumers treat as "nothing to draw".
#[derive(Debug, Clone, Copy, PartialEq, Eq, Structural)]
pub struct BoundingBox {
    pub x_min: i32,
    pub y_min: i32,
    pub x_max: i32,
    pub y_max: i32,
}

impl BoundingBox {
    /// Extents are ordered along both axes. A zero-width or zero-height box
    /// (single point or vertical/horizontal segment) is still well formed.
    pub open spec fn wf(self) -> bool {
        self.x_min <= self.x_max && self.y_min <= self.y_max
    }

    /// Horizontal extent, in design units.
    pub open spec fn spec_width(self) -> int {
        self.x_max - self.x_min
    }

    /// Vertical extent, in design units.
    pub open spec fn spec_height(self) -> int {
        self.y_max - self.y_min
    }
}

/// Vertical metrics of a loaded font, in design units. `units_per_em` is
/// never zero for a successfully loaded font; `descender` is conventionally
/// negative or zero, but nothing here relies on that. `height` is the line
/// height, ascender minus descender, held widened so the subtraction is
/// always exact.
#[derive(Debug, Clone, Copy, PartialEq, Eq, Structural)]
pub struct FontMetrics {
    pub units_per_em: u16,
    pub ascender: i16,
    pub descender: i16,
    pub height: i32,
}

impl FontMetrics {
    /// A zero `units_per_em` would make every scale computation meaningless,
    /// so loading treats it as a format error; the line height is the exact
    /// difference of the extents.
    pub open spec fn wf(self) -> bool {
        self.units_per_em > 0 && self.height == self.ascender - self.descender
    }
}

/// Everything the inspection logic needs to know about a loaded font.
#[derive(Debug, Clone, Copy, PartialEq, Eq, Structural)]
pub struct FontInfo {
    pub metrics: FontMetrics,
    pub number_of_glyphs: u16,
}

impl FontInfo {
    /// A loadable font exposes at least one glyph and a usable em size.
    pub open spec fn wf(self) -> bool {
        self.metrics.wf() && self.number_of_glyphs >= 1
    }
}

/// Checks the raw values read from a just-parsed font and assembles them into
/// a well-formed `FontInfo`. A zero `units_per_em` or an empty glyph set is a
/// format error; everything else is accepted as-is, with the line height
/// computed exactly as ascender minus descender (the parser defines its line
/// height the same way, but in narrow arithmetic that can overflow — here the
/// difference is widened instead).
pub fn validate_metrics(
    units_per_em: u16,
    ascender: i16,
    descender: i16,
    number_of_glyphs: u16,
) -> (r: Result<FontInfo, LoadError>)
    ensures
        r is Ok <==> units_per_em > 0 && number_of_glyphs >= 1,
        r matches Ok(info) ==> info == (FontInfo {
            metrics: FontMetrics {
                units_per_em,
                ascender,
                descender,
                height: (ascender - descender) as i32,
            },
            number_of_glyphs,
        }),
        r matches Ok(info) ==> info.wf(),
        r matches Err(e) ==> e == LoadError::FormatError,
{
    if units_per_em == 0 || number_of_glyphs == 0 {
        Err(LoadError::FormatError)
    } else {
        let height: i32 = ascender as i32 - descender as i32;
        Ok(FontInfo {
            metrics: FontMetrics { units_per_em, ascender, descender, height },
            number_of_glyphs,
        })
    }
}

/// The parsed font face, kept opaque: glyph outlines and name tables are read
/// through it, but nothing here inspects its representation.
#[verifier::external_type_specification]
#[verifier::external_body]
pub struct ExOwnedFace(owned_ttf_parser::OwnedFace);

/// Whether the font parser accepts these bytes as a face (at face index 0 of
/// a collection). Parsing is a function of the bytes alone.
pub uninterp spec fn font_parses(data: Seq<u8>) -> bool;

/// The em size a parse of these bytes reports (meaningful only where
/// `font_parses` holds). The parser reads it from the mandatory `head` table.
pub uninterp spec fn units_per_em_of(data: Seq<u8>) -> u16;

/// The typographic ascender a parse of these bytes reports, at the face's
/// default variation coordinates.
pub uninterp spec fn ascender_of(data: Seq<u8>) -> i16;

/// The typographic descender a parse of these bytes reports, at the face's
/// default variation coordinates.
pub uninterp spec fn descender_of(data: Seq<u8>) -> i16;

/// The glyph count a parse of these bytes reports. The parser reads it from
/// the mandatory `maxp` table.
pub uninterp spec fn glyph_count_of(data: Seq<u8>) -> u16;

/// A freshly parsed face together with the metric values it reported at
/// parse time, before anything (such as a variation-axis change) could move
/// them.
struct ParsedFace {
    face: owned_ttf_parser::OwnedFace,
    units_per_em: u16,
    ascender: i16,
    descender: i16,
    number_of_glyphs: u16,
}

/// Relies on owned_ttf_parser::OwnedFace::from_vec and, on the face it
/// returns, ttf_parser::Face's units_per_em, ascender, descender and
/// number_of_glyphs. Parsing succeeds exactly when the bytes are a usable
/// face (the failure is mapped to `FormatError`), and the metrics are read
/// here, at parse time, so each is a function of the bytes alone: `head`
/// parsing rejects an em size outside 16..=16384, and `maxp` stores the
/// glyph count as a non-zero 16-bit integer.
#[verifier::external_body]
fn parse_face(data: Vec<u8>) -> (r: Result<ParsedFace, LoadError>)
    ensures
        r is Ok <==> font_parses(data@),
        r matches Ok(p) ==> p.units_per_em == units_per_em_of(data@) && 16 <= p.units_per_em
            <= 16384,
        r matches Ok(p) ==> p.ascender == ascender_of(data@),
        r matches Ok(p) ==> p.descender == descender_of(data@),
        r matches Ok(p) ==> p.number_of_glyphs == glyph_count_of(data@) && p.number_of_glyphs >= 1,
        r matches Err(e) ==> e == LoadError::FormatError,
{
    match owned_ttf_parser::OwnedFace::from_vec(data, 0) {
        Ok(face) => {
            let units_per_em = face.as_face_ref().units_per_em();
            let ascender = face.as_face_ref().ascender();
            let descender = face.as_face_ref().descender();
            let number_of_glyphs = face.as_face_ref().number_of_glyphs();
            Ok(ParsedFace { face, units_per_em, ascender, descender, number_of_glyphs })
        },
        Err(_) => Err(LoadError::FormatError),
    }
}

/// A successfully loaded font: the opaque parsed face, for outline
/// traversal, together with the validated plain metrics that all transform
/// and layout logic works from.
pub struct LoadedFont {
    pub face: owned_ttf_parser::OwnedFace,
    pub info: FontInfo,
}

/// Parses font bytes and validates the metrics the inspection logic needs.
/// A font comes back exactly when the bytes parse; its numbers are the
/// parse's own, its line height their exact difference, and the whole is
/// well formed. Every failure is a `FormatError` (unreadable files never
/// reach this point).
pub fn load_font(data: Vec<u8>) -> (r: Result<LoadedFont, LoadError>)
    ensures
        r is Ok <==> font_parses(data@),
        r matches Ok(f) ==> ({
            &&& f.info.metrics.units_per_em == units_per_em_of(data@)
            &&& f.info.metrics.ascender == ascender_of(data@)
            &&& f.info.metrics.descender == descender_of(data@)
            &&& f.info.metrics.height == ascender_of(data@) - descender_of(data@)
            &&& f.info.number_of_glyphs == glyph_count_of(data@)
            &&& f.info.wf()
        }),
        r matches Err(e) ==> e == LoadError::FormatError,
{
    let parsed = match parse_face(data) {
        Ok(parsed) => parsed,
        Err(_) => return Err(LoadError::FormatError),
    };
    match validate_metrics(
        parsed.units_per_em,
        parsed.ascender,
        parsed.descender,
        parsed.number_of_glyphs,
    ) {
        Ok(info) => Ok(LoadedFont { face: parsed.face, info }),
        Err(e) => Err(e),
    }
}

} // verus!
