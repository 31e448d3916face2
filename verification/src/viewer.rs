//! The viewer's state machine: which font is loaded and which glyph is
//! current, and how each event moves the state.
//!
//! Every transition is a plain function from state and event to the next
//! state plus one action for the host to perform (open the dialog, keep the
//! parsed face, or recompute the current glyph's bounding box and outline
//! through the parser and then redraw). The host runs the event loop; the
//! decisions all live here.
use vstd::prelude::*;

use crate::LoadError;
use crate::dialog::RawFontInfo;
use crate::font::{
    ascender_of, descender_of, font_parses, glyph_count_of, load_font, units_per_em_of,
    BoundingBox, FontInfo, LoadedFont,
};
use crate::glyph_info::{spec_next, spec_prev, GlyphInfo, Outline};
use crate::overview::OverviewMessage;

verus! {

/// An event the viewer reacts to.
#[derive(Debug)]
pub enum Message {
    /// The open button was pressed.
    OpenFilePressed,
    /// The file-open task finished: the file's bytes, or why there are none.
    Loaded(Result<RawFontInfo, LoadError>),
    /// An event with nothing to decide (stray canvas messages).
    Empty,
    /// A click in the overview grid.
    Overview(OverviewMessage),
}

/// What the host must do after a transition.
pub enum Action {
    /// Nothing; the event was a no-op.
    Nothing,
    /// Open the file dialog and eventually deliver `Message::Loaded`.
    OpenDialog,
    /// Keep this parsed font for outline traversal, then recompute glyph 0
    /// and redraw.
    AdoptFont(LoadedFont),
    /// Recompute bounding box and outline for this glyph id through the
    /// parser, hand them back via `set_glyph_data`, and redraw.
    Recompute(u16),
}

/// The viewer's state: the loaded font's validated numbers (the parsed face
/// itself stays with the host), the path the last delivered file came from,
/// the current glyph, whether a file-open task is already in flight (a
/// second open request while one is pending is rejected, serializing dialog
/// use), and the last load failure, kept so the host can surface it once.
pub struct ViewerState {
    pub font: Option<FontInfo>,
    pub font_path: Option<String>,
    pub glyph: GlyphInfo,
    pub pending_open: bool,
    pub last_error: Option<LoadError>,
}

impl ViewerState {
    /// A current glyph only exists within the loaded font's id range, and a
    /// loaded font's numbers are validated.
    pub open spec fn wf(self) -> bool {
        self.font matches Some(f) ==> f.wf() && self.glyph.id < f.number_of_glyphs
    }

    /// The initial state: no font, no path, glyph 0, nothing pending, no
    /// error.
    pub fn new() -> (r: ViewerState)
        ensures
            r.font is None,
            r.font_path is None,
            r.glyph.id == 0,
            r.glyph.bbox is None,
            r.glyph.outline is None,
            r.pending_open == false,
            r.last_error is None,
            r.wf(),
    {
        ViewerState {
            font: None,
            font_path: None,
            glyph: GlyphInfo::new(),
            pending_open: false,
            last_error: None,
        }
    }

    /// The `FontLoaded` transition: adopt a validated font and reset
    /// navigation to glyph 0, with nothing computed for it yet; any previous
    /// load error and pending open are cleared.
    pub fn font_loaded(&mut self, info: FontInfo)
        requires
            info.wf(),
        ensures
            final(self).font == Some(info),
            final(self).font_path == old(self).font_path,
            final(self).glyph.id == 0,
            final(self).glyph.bbox is None,
            final(self).glyph.outline is None,
            final(self).pending_open == false,
            final(self).last_error is None,
            final(self).wf(),
    {
        self.font = Some(info);
        self.glyph = GlyphInfo::new();
        self.pending_open = false;
        self.last_error = None;
    }

    /// The `SelectGlyph` transition: move to a glyph picked in the overview.
    /// An id at or beyond the font's glyph count, or any click with no font
    /// loaded, is a no-op. When the selection is taken, the stale bounding
    /// box and outline are dropped and the host is asked to recompute.
    pub fn select_glyph(&mut self, id: u16) -> (a: Action)
        requires
            old(self).wf(),
        ensures
            final(self).wf(),
            final(self).font == old(self).font,
            final(self).font_path == old(self).font_path,
            final(self).pending_open == old(self).pending_open,
            final(self).last_error == old(self).last_error,
            ({
                let selectable = old(self).font matches Some(f) && id < f.number_of_glyphs;
                if selectable {
                    &&& final(self).glyph.id == id
                    &&& final(self).glyph.bbox is None
                    &&& final(self).glyph.outline is None
                    &&& a matches Action::Recompute(g) && g == id
                } else {
                    &&& *final(self) == *old(self)
                    &&& a is Nothing
                }
            }),
    {
        let font = self.font;
        match font {
            Some(f) => {
                if id < f.number_of_glyphs {
                    self.glyph = GlyphInfo { id, bbox: None, outline: None };
                    Action::Recompute(id)
                } else {
                    Action::Nothing
                }
            },
            None => Action::Nothing,
        }
    }

    /// The `Next` transition: one glyph forward, a no-op at the last id or
    /// with no font loaded. When the id moves, stale glyph data is dropped
    /// and the host is asked to recompute.
    pub fn next(&mut self) -> (a: Action)
        requires
            old(self).wf(),
        ensures
            final(self).wf(),
            final(self).font == old(self).font,
            final(self).font_path == old(self).font_path,
            final(self).pending_open == old(self).pending_open,
            final(self).last_error == old(self).last_error,
            ({
                match old(self).font {
                    Some(f) => {
                        let id = spec_next(old(self).glyph.id, f.number_of_glyphs);
                        &&& final(self).glyph.id == id
                        &&& if id != old(self).glyph.id {
                            (a matches Action::Recompute(g) && g == id)
                                && final(self).glyph.bbox is None
                                && final(self).glyph.outline is None
                        } else {
                            *final(self) == *old(self) && a is Nothing
                        }
                    },
                    None => *final(self) == *old(self) && a is Nothing,
                }
            }),
    {
        let font = self.font;
        match font {
            Some(f) => {
                let n = f.number_of_glyphs;
                let moved = self.glyph.next(n);
                if moved {
                    let id = self.glyph.id;
                    self.glyph = GlyphInfo { id, bbox: None, outline: None };
                    Action::Recompute(id)
                } else {
                    Action::Nothing
                }
            },
            None => Action::Nothing,
        }
    }

    /// The `Prev` transition: one glyph back, a no-op at id 0 or with no
    /// font loaded. When the id moves, stale glyph data is dropped and the
    /// host is asked to recompute.
    pub fn prev(&mut self) -> (a: Action)
        requires
            old(self).wf(),
        ensures
            final(self).wf(),
            final(self).font == old(self).font,
            final(self).font_path == old(self).font_path,
            final(self).pending_open == old(self).pending_open,
            final(self).last_error == old(self).last_error,
            ({
                match old(self).font {
                    Some(f) => {
                        let id = spec_prev(old(self).glyph.id);
                        &&& final(self).glyph.id == id
                        &&& if id != old(self).glyph.id {
                            (a matches Action::Recompute(g) && g == id)
                                && final(self).glyph.bbox is None
                                && final(self).glyph.outline is None
                        } else {
                            *final(self) == *old(self) && a is Nothing
                        }
                    },
                    None => *final(self) == *old(self) && a is Nothing,
                }
            }),
    {
        let font = self.font;
        match font {
            Some(_) => {
                let moved = self.glyph.prev();
                if moved {
                    let id = self.glyph.id;
                    self.glyph = GlyphInfo { id, bbox: None, outline: None };
                    Action::Recompute(id)
                } else {
                    Action::Nothing
                }
            },
            None => Action::Nothing,
        }
    }

    /// Stores the parser's answer for the current glyph: its bounding box
    /// (absent when the glyph has no visible outline — that is data, not an
    /// error) and its recorded outline.
    pub fn set_glyph_data(&mut self, bbox: Option<BoundingBox>, outline: Outline)
        requires
            old(self).wf(),
        ensures
            final(self).wf(),
            final(self).font == old(self).font,
            final(self).font_path == old(self).font_path,
            final(self).pending_open == old(self).pending_open,
            final(self).last_error == old(self).last_error,
            final(self).glyph.id == old(self).glyph.id,
            final(self).glyph.bbox == bbox,
            final(self).glyph.outline == Some(outline),
    {
        self.glyph.bbox = bbox;
        self.glyph.outline = Some(outline);
    }

    /// One step of the event loop: reacts to a message and says what the
    /// host must do next.
    ///
    /// Open requests while an open is already pending are rejected, so
    /// dialog use is serialized. A delivered file has its path remembered
    /// and its bytes parsed and validated here: a font is adopted exactly
    /// when the bytes parse (see `font_loaded`), and the parsed face is
    /// handed to the host; on unparseable bytes the error is recorded and no
    /// font is loaded any more — a recoverable state, never a crash. Grid
    /// clicks select a glyph; ids beyond the font are a no-op.
    pub fn update(&mut self, msg: Message) -> (a: Action)
        requires
            old(self).wf(),
        ensures
            final(self).wf(),
            msg is OpenFilePressed && !old(self).pending_open ==> final(self).font == old(self).font
                && final(self).font_path == old(self).font_path
                && final(self).glyph == old(self).glyph
                && final(self).last_error == old(self).last_error
                && final(self).pending_open && a is OpenDialog,
            msg is OpenFilePressed && old(self).pending_open ==> *final(self) == *old(self)
                && a is Nothing,
            msg is Empty ==> *final(self) == *old(self) && a is Nothing,
            msg matches Message::Loaded(Err(e)) ==> final(self).font == old(self).font
                && final(self).font_path == old(self).font_path
                && final(self).glyph == old(self).glyph && final(self).pending_open == false
                && final(self).last_error == Some(e) && a is Nothing,
            msg matches Message::Loaded(Ok(raw)) ==> ({
                &&& final(self).pending_open == false
                &&& final(self).font_path == Some(raw.path)
                &&& (a is AdoptFont <==> font_parses(raw.data@))
                &&& (a matches Action::AdoptFont(lf) ==> ({
                    &&& final(self).font == Some(lf.info)
                    &&& lf.info.metrics.units_per_em == units_per_em_of(raw.data@)
                    &&& lf.info.metrics.ascender == ascender_of(raw.data@)
                    &&& lf.info.metrics.descender == descender_of(raw.data@)
                    &&& lf.info.metrics.height == ascender_of(raw.data@) - descender_of(raw.data@)
                    &&& lf.info.number_of_glyphs == glyph_count_of(raw.data@)
                    &&& lf.info.wf()
                    &&& final(self).glyph.id == 0
                    &&& final(self).glyph.bbox is None
                    &&& final(self).glyph.outline is None
                    &&& final(self).last_error is None
                }))
                &&& (!font_parses(raw.data@) ==> final(self).font is None && final(self).glyph
                    == old(self).glyph && final(self).last_error == Some(LoadError::FormatError)
                    && a is Nothing)
            }),
            msg matches Message::Overview(OverviewMessage::ClickGlyph(id)) ==> ({
                let selectable = old(self).font matches Some(f) && id < f.number_of_glyphs;
                &&& final(self).font == old(self).font
                &&& final(self).font_path == old(self).font_path
                &&& final(self).pending_open == old(self).pending_open
                &&& final(self).last_error == old(self).last_error
                &&& if selectable {
                    final(self).glyph.id == id && final(self).glyph.bbox is None
                        && final(self).glyph.outline is None
                        && (a matches Action::Recompute(g) && g == id)
                } else {
                    *final(self) == *old(self) && a is Nothing
                }
            }),
    {
        match msg {
            Message::OpenFilePressed => {
                if self.pending_open {
                    Action::Nothing
                } else {
                    self.pending_open = true;
                    Action::OpenDialog
                }
            },
            Message::Loaded(result) => {
                self.pending_open = false;
                match result {
                    Ok(raw) => {
                        self.font_path = Some(raw.path);
                        match load_font(raw.data) {
                            Ok(loaded) => {
                                self.font_loaded(loaded.info);
                                Action::AdoptFont(loaded)
                            },
                            Err(e) => {
                                self.font = None;
                                self.last_error = Some(e);
                                Action::Nothing
                            },
                        }
                    },
                    Err(e) => {
                        self.last_error = Some(e);
                        Action::Nothing
                    },
                }
            },
            Message::Empty => Action::Nothing,
            Message::Overview(OverviewMessage::ClickGlyph(id)) => self.select_glyph(id),
        }
    }
}

} // verus!
