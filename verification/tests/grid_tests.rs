//! Grid overview: hit-testing, cell layout, per-cell transforms, separator
//! lines, and the overview cache.
use ttf_inspector::font::{BoundingBox, FontMetrics};
use ttf_inspector::glyph_info::Outline;
use ttf_inspector::overview::{
    cell_transform, grid_lines, hit_test, label_anchor, render_overview, GlyphData,
    OverviewMessage, State, CELL_SIZE, COLUMNS, ROWS,
};
use ttf_inspector::transform::{PixelCommand, Transform};

fn metrics() -> FontMetrics {
    FontMetrics {
        units_per_em: 1000,
        ascender: 800,
        descender: -200,
        height: 1000,
    }
}

#[test]
fn hit_test_inverts_layout_at_cell_centers() {
    for row in 0..ROWS {
        for col in 0..COLUMNS {
            let x = (col * CELL_SIZE + CELL_SIZE / 2) as u32;
            let y = (row * CELL_SIZE + CELL_SIZE / 2) as u32;
            let expected = row * COLUMNS + col;
            assert_eq!(
                hit_test(x, y, 50),
                Some(OverviewMessage::ClickGlyph(expected))
            );
        }
    }
}

#[test]
fn click_at_65_5_selects_glyph_one() {
    // Row 0, column 1: id = 0 * COLUMNS + 1 = 1.
    assert_eq!(hit_test(65, 5, 50), Some(OverviewMessage::ClickGlyph(1)));
}

#[test]
fn clicks_outside_populated_cells_are_noops() {
    // Below the grid's rows.
    assert_eq!(hit_test(5, 5 * 60 + 1, 50), None);
    // Right of the grid's columns.
    assert_eq!(hit_test(10 * 60 + 1, 5, 50), None);
    // Inside the grid but beyond the font's glyphs.
    assert_eq!(hit_test(65, 5, 1), None);
    assert_eq!(hit_test(5, 5, 1), Some(OverviewMessage::ClickGlyph(0)));
}

#[test]
fn label_anchors_sit_near_cell_corners() {
    assert_eq!(label_anchor(0), (3, 13));
    assert_eq!(label_anchor(1), (63, 13));
    assert_eq!(label_anchor(10), (3, 73));
    assert_eq!(label_anchor(49), (9 * 60 + 3, 4 * 60 + 13));
}

#[test]
fn cell_transform_exact_fields() {
    let b = BoundingBox {
        x_min: 0,
        y_min: 0,
        x_max: 500,
        y_max: 500,
    };
    let t = cell_transform(0, &b, &metrics()).unwrap();
    assert_eq!(
        t,
        Transform {
            num: 120,
            den: 2000,
            tx: 30000,
            ty: 96000,
            flip_y: true,
        }
    );
    // The bbox midpoint (x = 250) lands on the cell's center line (x = 30).
    assert_eq!((t.tx + t.num * 250) / t.den, 30);
    let t11 = cell_transform(11, &b, &metrics()).unwrap();
    assert_eq!(t11.num, 120);
    assert_eq!(t11.den, 2000);
    assert_eq!(t11.tx, 150000);
    assert_eq!(t11.ty, 216000);
}

#[test]
fn cells_share_scale_and_row_baseline() {
    let narrow = BoundingBox {
        x_min: 10,
        y_min: 0,
        x_max: 60,
        y_max: 700,
    };
    let wide = BoundingBox {
        x_min: -300,
        y_min: -150,
        x_max: 450,
        y_max: 90,
    };
    let a = cell_transform(3, &narrow, &metrics()).unwrap();
    let b = cell_transform(7, &wide, &metrics()).unwrap();
    // One shared scale for the whole grid, one baseline pixel per row.
    assert_eq!(a.num, b.num);
    assert_eq!(a.den, b.den);
    assert_eq!(a.ty, b.ty);
    assert_ne!(a.tx, b.tx);
    // A different row moves the baseline down by exactly one cell.
    let c = cell_transform(17, &wide, &metrics()).unwrap();
    assert_eq!(c.ty - b.ty, (CELL_SIZE as i64) * c.den);
}

#[test]
fn cell_transform_needs_positive_height() {
    let b = BoundingBox {
        x_min: 0,
        y_min: 0,
        x_max: 10,
        y_max: 10,
    };
    let bad = FontMetrics {
        units_per_em: 1000,
        ascender: 0,
        descender: 0,
        height: 0,
    };
    assert!(cell_transform(0, &b, &bad).is_none());
}

#[test]
fn overview_renders_up_to_grid_capacity() {
    let visible = GlyphData {
        bbox: Some(BoundingBox {
            x_min: 0,
            y_min: 0,
            x_max: 100,
            y_max: 100,
        }),
        outline: {
            let mut o = Outline::new();
            o.move_to(0, 0);
            o.line_to(100, 100);
            o.close();
            o
        },
    };
    let invisible = GlyphData {
        bbox: None,
        outline: Outline::new(),
    };
    // Three glyphs: all three cells appear, the invisible one empty.
    let glyphs = vec![visible.clone(), invisible.clone(), visible.clone()];
    let cells = render_overview(&glyphs, &metrics());
    assert_eq!(cells.len(), 3);
    assert!(cells[0].is_some());
    assert!(cells[1].is_none());
    assert!(cells[2].is_some());
    assert_eq!(cells[0].as_ref().unwrap().commands.len(), 3);
    // Sixty glyphs: only the grid's fifty cells are rendered.
    let many: Vec<GlyphData> = (0..60).map(|_| visible.clone()).collect();
    let cells = render_overview(&many, &metrics());
    assert_eq!(cells.len(), 50);
}

#[test]
fn grid_lines_cover_all_separators() {
    let path = grid_lines();
    assert_eq!(path.den, 1);
    assert_eq!(path.commands.len(), 34);
    // First vertical line.
    assert_eq!(path.commands[0], PixelCommand::MoveTo { x: 1, y: 0 });
    assert_eq!(path.commands[1], PixelCommand::LineTo { x: 1, y: 300 });
    // Last vertical line sits one pixel past the right edge of cell 9.
    assert_eq!(path.commands[20], PixelCommand::MoveTo { x: 601, y: 0 });
    assert_eq!(path.commands[21], PixelCommand::LineTo { x: 601, y: 300 });
    // First and last horizontal lines.
    assert_eq!(path.commands[22], PixelCommand::MoveTo { x: 0, y: 1 });
    assert_eq!(path.commands[23], PixelCommand::LineTo { x: 600, y: 1 });
    assert_eq!(path.commands[32], PixelCommand::MoveTo { x: 0, y: 301 });
    assert_eq!(path.commands[33], PixelCommand::LineTo { x: 600, y: 301 });
}

#[test]
fn overview_cache_holds_until_redraw_requested() {
    let glyph = GlyphData {
        bbox: Some(BoundingBox {
            x_min: 0,
            y_min: 0,
            x_max: 100,
            y_max: 100,
        }),
        outline: {
            let mut o = Outline::new();
            o.move_to(0, 0);
            o.close();
            o
        },
    };
    let mut state = State::new();
    assert!(state.cache.is_none());
    state.draw(&vec![glyph.clone()], &metrics());
    let first = state.cache.clone().unwrap();
    assert_eq!(first.len(), 1);
    // More glyphs arrive, but without an invalidation the cache stands.
    state.draw(&vec![glyph.clone(), glyph.clone()], &metrics());
    assert_eq!(state.cache.clone().unwrap().len(), 1);
    state.request_redraw();
    assert!(state.cache.is_none());
    state.draw(&vec![glyph.clone(), glyph.clone()], &metrics());
    assert_eq!(state.cache.clone().unwrap().len(), 2);
}
