//! Loading and validation: metric validation, dialog-outcome
//! classification, and parsing real bytes through the font parser.
use ttf_inspector::dialog::{outcome_to_path, DialogOutcome};
use ttf_inspector::font::{load_font, validate_metrics, FontInfo, FontMetrics};
use ttf_inspector::viewer::{Action, Message, ViewerState};
use ttf_inspector::LoadError;

/// Builds the smallest font the parser accepts: a table directory with the
/// three mandatory tables (`head`, `hhea`, `maxp`) and nothing else.
fn tiny_font(units_per_em: u16, ascender: i16, descender: i16, num_glyphs: u16) -> Vec<u8> {
    let mut v: Vec<u8> = Vec::new();
    // Table directory: TrueType magic, three tables, records sorted by tag.
    v.extend_from_slice(&0x00010000u32.to_be_bytes());
    v.extend_from_slice(&3u16.to_be_bytes());
    v.extend_from_slice(&[0u8; 6]); // searchRange / entrySelector / rangeShift
    let mut record = |tag: &[u8; 4], offset: u32, length: u32, v: &mut Vec<u8>| {
        v.extend_from_slice(tag);
        v.extend_from_slice(&0u32.to_be_bytes()); // checksum, unchecked
        v.extend_from_slice(&offset.to_be_bytes());
        v.extend_from_slice(&length.to_be_bytes());
    };
    record(b"head", 60, 54, &mut v);
    record(b"hhea", 114, 36, &mut v);
    record(b"maxp", 150, 6, &mut v);
    // head
    v.extend_from_slice(&0x00010000u32.to_be_bytes()); // version
    v.extend_from_slice(&0u32.to_be_bytes()); // revision
    v.extend_from_slice(&0u32.to_be_bytes()); // checksum adjustment
    v.extend_from_slice(&0x5F0F3CF5u32.to_be_bytes()); // magic
    v.extend_from_slice(&0u16.to_be_bytes()); // flags
    v.extend_from_slice(&units_per_em.to_be_bytes());
    v.extend_from_slice(&[0u8; 16]); // created + modified
    v.extend_from_slice(&[0u8; 8]); // xMin / yMin / xMax / yMax
    v.extend_from_slice(&0u16.to_be_bytes()); // macStyle
    v.extend_from_slice(&8u16.to_be_bytes()); // lowest rec PPEM
    v.extend_from_slice(&2i16.to_be_bytes()); // font direction hint
    v.extend_from_slice(&0u16.to_be_bytes()); // index-to-location format
    v.extend_from_slice(&0i16.to_be_bytes()); // glyph data format
    // hhea
    v.extend_from_slice(&0x00010000u32.to_be_bytes()); // version
    v.extend_from_slice(&ascender.to_be_bytes());
    v.extend_from_slice(&descender.to_be_bytes());
    v.extend_from_slice(&0i16.to_be_bytes()); // line gap
    v.extend_from_slice(&[0u8; 22]); // widths, bearings, caret, reserved
    v.extend_from_slice(&0i16.to_be_bytes()); // metric data format
    v.extend_from_slice(&1u16.to_be_bytes()); // number of h-metrics
    // maxp
    v.extend_from_slice(&0x00005000u32.to_be_bytes()); // version 0.5
    v.extend_from_slice(&num_glyphs.to_be_bytes());
    v
}

#[test]
fn validate_accepts_sane_metrics() {
    let info = validate_metrics(1000, 800, -200, 5).unwrap();
    assert_eq!(
        info,
        FontInfo {
            metrics: FontMetrics {
                units_per_em: 1000,
                ascender: 800,
                descender: -200,
                height: 1000,
            },
            number_of_glyphs: 5,
        }
    );
}

#[test]
fn validate_rejects_zero_units_per_em() {
    assert_eq!(
        validate_metrics(0, 800, -200, 5),
        Err(LoadError::FormatError)
    );
}

#[test]
fn validate_rejects_empty_glyph_set() {
    assert_eq!(
        validate_metrics(1000, 800, -200, 0),
        Err(LoadError::FormatError)
    );
}

#[test]
fn load_font_rejects_garbage() {
    assert!(matches!(
        load_font(vec![0u8; 64]),
        Err(LoadError::FormatError)
    ));
    assert!(matches!(load_font(Vec::new()), Err(LoadError::FormatError)));
}

#[test]
fn load_font_reads_real_metrics() {
    let loaded = load_font(tiny_font(1000, 800, -200, 5)).unwrap();
    assert_eq!(loaded.info.number_of_glyphs, 5);
    assert_eq!(loaded.info.metrics.units_per_em, 1000);
    assert_eq!(loaded.info.metrics.ascender, 800);
    assert_eq!(loaded.info.metrics.descender, -200);
    assert_eq!(loaded.info.metrics.height, 1000);
}

#[test]
fn extreme_extents_load_without_overflow() {
    // The widest extents a font can state: the line height is their exact
    // difference, beyond i16 but exact in the widened field.
    let loaded = load_font(tiny_font(1000, 32767, -32768, 2)).unwrap();
    assert_eq!(loaded.info.metrics.ascender, 32767);
    assert_eq!(loaded.info.metrics.descender, -32768);
    assert_eq!(loaded.info.metrics.height, 65535);
}

#[test]
fn load_font_rejects_out_of_range_units_per_em() {
    // The parser itself refuses an em size outside 16..=16384.
    assert!(matches!(
        load_font(tiny_font(1, 800, -200, 5)),
        Err(LoadError::FormatError)
    ));
}

#[test]
fn load_font_rejects_zero_glyphs() {
    // A zero glyph count never parses: the count is non-zero by format.
    assert!(matches!(
        load_font(tiny_font(1000, 800, -200, 0)),
        Err(LoadError::FormatError)
    ));
}

#[test]
fn loaded_five_glyph_font_navigates_clamped() {
    // End to end: real bytes with five glyphs, adopted through the state
    // machine; five Next presses land on id 4, not 5.
    let mut state = ViewerState::new();
    assert!(matches!(
        state.update(Message::OpenFilePressed),
        Action::OpenDialog
    ));
    let raw = ttf_inspector::dialog::RawFontInfo {
        path: String::from("tiny.ttf"),
        data: tiny_font(1000, 800, -200, 5),
    };
    let action = state.update(Message::Loaded(Ok(raw)));
    let loaded = match action {
        Action::AdoptFont(loaded) => loaded,
        _ => panic!("a parseable font is adopted"),
    };
    assert_eq!(loaded.info.number_of_glyphs, 5);
    assert_eq!(state.glyph.id, 0);
    for _ in 0..5 {
        state.next();
    }
    assert_eq!(state.glyph.id, 4);
}

#[test]
fn unparseable_bytes_clear_the_previous_font() {
    // A failed load leaves "no font loaded", not the stale previous font;
    // the delivered path is still remembered.
    let mut state = ViewerState::new();
    state.update(Message::OpenFilePressed);
    let good = ttf_inspector::dialog::RawFontInfo {
        path: String::from("good.ttf"),
        data: tiny_font(1000, 800, -200, 5),
    };
    assert!(matches!(
        state.update(Message::Loaded(Ok(good))),
        Action::AdoptFont(_)
    ));
    assert!(state.font.is_some());
    assert_eq!(state.font_path.as_deref(), Some("good.ttf"));
    state.update(Message::OpenFilePressed);
    let bad = ttf_inspector::dialog::RawFontInfo {
        path: String::from("bad.ttf"),
        data: vec![0u8; 32],
    };
    assert!(matches!(state.update(Message::Loaded(Ok(bad))), Action::Nothing));
    assert!(state.font.is_none());
    assert_eq!(state.font_path.as_deref(), Some("bad.ttf"));
    assert_eq!(state.last_error, Some(LoadError::FormatError));
}

#[test]
fn dialog_outcomes_classified() {
    assert_eq!(
        outcome_to_path(DialogOutcome::Okay(String::from("a.ttf"))),
        Ok(String::from("a.ttf"))
    );
    assert_eq!(
        outcome_to_path(DialogOutcome::OkayMultiple),
        Err(LoadError::FileError)
    );
    assert_eq!(
        outcome_to_path(DialogOutcome::Cancel),
        Err(LoadError::FileError)
    );
    assert_eq!(
        outcome_to_path(DialogOutcome::Failure),
        Err(LoadError::FileError)
    );
}
