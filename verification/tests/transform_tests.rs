//! Transform calculator behavior: exact fit transforms, degenerate inputs,
//! uniform positive scale, monotonicity, and exact path application.
use ttf_inspector::font::BoundingBox;
use ttf_inspector::glyph_info::Outline;
use ttf_inspector::transform::{
    apply_outline, compute_transform, PixelCommand, Transform, ViewportSize,
};

fn bbox(x_min: i32, y_min: i32, x_max: i32, y_max: i32) -> BoundingBox {
    BoundingBox {
        x_min,
        y_min,
        x_max,
        y_max,
    }
}

#[test]
fn fit_transform_exact_fields() {
    let b = bbox(0, 0, 100, 200);
    let vp = ViewportSize {
        width: 400,
        height: 400,
    };
    // avail = 390 x 390; height binds: scale = 390/200, doubled to 780/400.
    let t = compute_transform(&b, vp, 5, -40).unwrap();
    assert_eq!(
        t,
        Transform {
            num: 780,
            den: 400,
            tx: 41000,
            ty: 126800,
            flip_y: true,
        }
    );
    // The baseline (design y = 0) lands at height - margin + descender*scale.
    let baseline = t.ty as f64 / t.den as f64;
    assert!((baseline - (395.0 - 40.0 * 1.95)).abs() < 1e-9);
}

#[test]
fn fit_transform_width_bound() {
    // avail 390 x 390, bbox 200 wide x 100 tall: width binds, scale 390/200.
    let b = bbox(-100, 0, 100, 100);
    let vp = ViewportSize {
        width: 400,
        height: 400,
    };
    let t = compute_transform(&b, vp, 5, 0).unwrap();
    assert_eq!(t.num, 780);
    assert_eq!(t.den, 400);
    // Horizontal center of the bbox maps to the viewport center line.
    let center = (t.tx + t.num * 0) as f64 / t.den as f64;
    assert!((center - 200.0).abs() < 1e-9);
}

#[test]
fn degenerate_viewport_yields_nothing() {
    let b = bbox(0, 0, 100, 100);
    let tiny = ViewportSize {
        width: 10,
        height: 400,
    };
    assert!(compute_transform(&b, tiny, 5, 0).is_none());
    let zero = ViewportSize {
        width: 0,
        height: 0,
    };
    assert!(compute_transform(&b, zero, 5, 0).is_none());
}

#[test]
fn point_bbox_yields_nothing() {
    let b = bbox(42, 7, 42, 7);
    let vp = ViewportSize {
        width: 400,
        height: 400,
    };
    assert!(compute_transform(&b, vp, 5, 0).is_none());
}

#[test]
fn unordered_bbox_yields_nothing() {
    let b = bbox(10, 0, -10, 100);
    let vp = ViewportSize {
        width: 400,
        height: 400,
    };
    assert!(compute_transform(&b, vp, 5, 0).is_none());
}

#[test]
fn zero_width_bbox_adopts_height_scale() {
    // A vertical bar: width 0, height 100; the scale comes from the y axis.
    let b = bbox(50, 0, 50, 100);
    let vp = ViewportSize {
        width: 400,
        height: 400,
    };
    let t = compute_transform(&b, vp, 5, 0).unwrap();
    assert_eq!(t.num, 2 * 390);
    assert_eq!(t.den, 2 * 100);
}

#[test]
fn scale_positive_and_uniform() {
    // One numerator/denominator pair drives both axes; it is positive for
    // every non-degenerate input tried here.
    let vp = ViewportSize {
        width: 640,
        height: 480,
    };
    for &(x0, y0, x1, y1) in &[(0, 0, 10, 10), (-500, -500, 500, 700), (3, 9, 4, 9)] {
        let t = compute_transform(&bbox(x0, y0, x1, y1), vp, 5, -100).unwrap();
        assert!(t.num > 0 && t.den > 0);
        assert!(t.flip_y);
    }
}

#[test]
fn shrinking_viewport_never_increases_scale() {
    let b = bbox(-120, -30, 480, 777);
    let mut last: Option<(i64, i64)> = None;
    for side in [800u16, 700, 600, 500, 400, 300, 200, 100, 50] {
        let vp = ViewportSize {
            width: side,
            height: side,
        };
        let t = compute_transform(&b, vp, 5, 0).unwrap();
        if let Some((pn, pd)) = last {
            // scale(t) <= previous scale, compared by cross-multiplication
            assert!(t.num * pd <= pn * t.den);
        }
        last = Some((t.num, t.den));
    }
}

#[test]
fn apply_outline_exact_coordinates() {
    let b = bbox(0, 0, 100, 200);
    let vp = ViewportSize {
        width: 400,
        height: 400,
    };
    let t = compute_transform(&b, vp, 5, -40).unwrap();
    let mut o = Outline::new();
    o.move_to(0, 0);
    o.line_to(100, 200);
    o.close();
    let cmds = apply_outline(&t, &o);
    assert_eq!(
        cmds,
        vec![
            PixelCommand::MoveTo {
                x: 41000,
                y: 126800
            },
            PixelCommand::LineTo {
                x: 119000,
                y: -29200
            },
            PixelCommand::Close,
        ]
    );
}

#[test]
fn topology_survives_viewport_change() {
    // The round trip: one recorded outline, two viewports; the command kind
    // sequences agree and only coordinates differ.
    let b = bbox(-10, -20, 300, 500);
    let mut o = Outline::new();
    o.move_to(-10, -20);
    o.quad_to(0, 0, 100, 100);
    o.curve_to(1, 2, 3, 4, 300, 500);
    o.line_to(-10, 500);
    o.close();
    o.move_to(5, 5);
    o.close();
    let t1 = compute_transform(
        &b,
        ViewportSize {
            width: 400,
            height: 400,
        },
        5,
        -40,
    )
    .unwrap();
    let t2 = compute_transform(
        &b,
        ViewportSize {
            width: 313,
            height: 127,
        },
        5,
        -40,
    )
    .unwrap();
    let p1 = apply_outline(&t1, &o);
    let p2 = apply_outline(&t2, &o);
    assert_eq!(p1.len(), p2.len());
    assert_eq!(p1.len(), o.len());
    let kind = |c: &PixelCommand| match c {
        PixelCommand::MoveTo { .. } => 'm',
        PixelCommand::LineTo { .. } => 'l',
        PixelCommand::QuadTo { .. } => 'q',
        PixelCommand::CurveTo { .. } => 'c',
        PixelCommand::Close => 'z',
    };
    let k1: Vec<char> = p1.iter().map(kind).collect();
    let k2: Vec<char> = p2.iter().map(kind).collect();
    assert_eq!(k1, k2);
    assert_eq!(k1, vec!['m', 'q', 'c', 'l', 'z', 'm', 'z']);
    assert_ne!(p1, p2);
}
