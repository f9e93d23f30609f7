use plotters_ratatui_backend::render::Color;
use plotters_ratatui_backend::render::Primitive;
use plotters_ratatui_backend::render::PrimitiveRenderer;
use plotters_ratatui_backend::transform::NormCoord;
use plotters_ratatui_backend::transform::Region;

const RED: Color = Color { r: 255, g: 0, b: 0 };

fn renderer(width: u16, height: u16) -> PrimitiveRenderer {
    PrimitiveRenderer { region: Region { x: 0, y: 0, width, height } }
}

fn norm(x_num: i64, x_den: u64, y_num: i64, y_den: u64) -> NormCoord {
    NormCoord { x_num, x_den, y_num, y_den }
}

#[test]
fn new_rejects_zero_sized_region() {
    assert!(PrimitiveRenderer::new(Region { x: 0, y: 0, width: 0, height: 5 }).is_none());
    assert!(PrimitiveRenderer::new(Region { x: 0, y: 0, width: 5, height: 0 }).is_none());
    let r = PrimitiveRenderer::new(Region { x: 0, y: 0, width: 5, height: 5 });
    assert!(r.is_some());
    assert_eq!(r.unwrap().region.width, 5);
}

#[test]
fn get_size_matches_addressable_size() {
    assert_eq!(renderer(10, 10).get_size(), (20, 40));
    assert_eq!(renderer(3, 7).get_size(), (6, 28));
}

#[test]
fn lifecycle_hooks_always_succeed() {
    let r = renderer(10, 10);
    assert!(r.ensure_prepared().is_ok());
    assert!(r.present().is_ok());
}

#[test]
fn pixel_is_one_transformed_point() {
    let out = renderer(10, 10).draw_pixel((3, 5), RED);
    assert_eq!(
        out,
        vec![Primitive::Point { pos: norm(3, 20, 35, 40), color: RED }]
    );
}

#[test]
fn line_is_one_transformed_segment() {
    let out = renderer(10, 10).draw_line((0, 0), (20, 40), RED);
    assert_eq!(
        out,
        vec![Primitive::Line { a: norm(0, 20, 40, 40), b: norm(20, 20, 0, 40), color: RED }]
    );
}

#[test]
fn unfilled_circle_is_one_outline_with_untransformed_radius() {
    let out = renderer(10, 10).draw_circle((10, 20), 7, RED, false);
    assert_eq!(
        out,
        vec![Primitive::Circle { center: norm(10, 20, 20, 40), radius: 7, color: RED }]
    );
}

#[test]
fn filled_circle_emits_two_radius_plus_one_lines() {
    // the number of emitted segments is 2r + 1, for several radii
    for radius in [0u32, 1, 2, 3, 5, 10] {
        let out = renderer(100, 100).draw_circle((50, 50), radius, RED, true);
        assert_eq!(out.len(), (2 * radius + 1) as usize);
    }
}

#[test]
fn filled_circle_row_halfwidths_are_floor_sqrt() {
    // radius 3: half-widths floor(sqrt(9 - dy^2)) for dy = -3..=3
    let out = renderer(100, 100).draw_circle((50, 50), 3, RED, true);
    let expected_halfwidths = [0i64, 2, 2, 3, 2, 2, 0];
    assert_eq!(out.len(), 7);
    for (i, prim) in out.iter().enumerate() {
        let dy = i as i64 - 3;
        let hw = expected_halfwidths[i];
        match prim {
            Primitive::Line { a, b, color } => {
                assert_eq!(*color, RED);
                // horizontal row at pixel y = 50 + dy, x from 50 - hw to 50 + hw
                assert_eq!(a.x_num, 50 - hw);
                assert_eq!(b.x_num, 50 + hw);
                assert_eq!(a.y_num, 400 - (50 + dy));
                assert_eq!(b.y_num, 400 - (50 + dy));
            }
            other => panic!("expected a line, got {other:?}"),
        }
    }
}

#[test]
fn filled_circle_radius_zero_is_single_point_line() {
    let out = renderer(10, 10).draw_circle((4, 4), 0, RED, true);
    assert_eq!(
        out,
        vec![Primitive::Line { a: norm(4, 20, 36, 40), b: norm(4, 20, 36, 40), color: RED }]
    );
}

#[test]
fn unfilled_rect_spans_min_to_max() {
    let out = renderer(10, 10).draw_rect((2, 4), (5, 9), RED, false);
    // corner = transform of (min x, max pixel y); extents share its denominators
    assert_eq!(
        out,
        vec![Primitive::Rect {
            corner: norm(2, 20, 31, 40),
            width_num: 3,
            height_num: 5,
            color: RED,
        }]
    );
}

#[test]
fn degenerate_rect_is_zero_sized_at_corner() {
    let out = renderer(10, 10).draw_rect((0, 0), (0, 0), RED, false);
    assert_eq!(
        out,
        vec![Primitive::Rect {
            corner: norm(0, 20, 40, 40),
            width_num: 0,
            height_num: 0,
            color: RED,
        }]
    );
}

#[test]
fn filled_rect_sweeps_each_column_once() {
    // columns swept are exactly [min x, max x] inclusive, in order
    let out = renderer(10, 10).draw_rect((5, 9), (2, 4), RED, true);
    assert_eq!(out.len(), 4);
    for (i, prim) in out.iter().enumerate() {
        match prim {
            Primitive::Line { a, b, color } => {
                assert_eq!(*color, RED);
                assert_eq!(a.x_num, 2 + i as i64);
                assert_eq!(b.x_num, 2 + i as i64);
                // vertical from pixel y = 4 down to y = 9
                assert_eq!(a.y_num, 36);
                assert_eq!(b.y_num, 31);
            }
            other => panic!("expected a line, got {other:?}"),
        }
    }
}

#[test]
fn rect_corner_order_is_insignificant() {
    let r = renderer(10, 10);
    // degenerate point, x-only difference, y-only difference, both
    let cases = [((3, 3), (3, 3)), ((2, 3), (6, 3)), ((3, 2), (3, 8)), ((2, 4), (5, 9))];
    for (p1, p2) in cases {
        for fill in [false, true] {
            let base = r.draw_rect(p1, p2, RED, fill);
            // swap on both axes
            assert_eq!(r.draw_rect(p2, p1, RED, fill), base);
            // swap on x only
            assert_eq!(r.draw_rect((p2.0, p1.1), (p1.0, p2.1), RED, fill), base);
            // swap on y only
            assert_eq!(r.draw_rect((p1.0, p2.1), (p2.0, p1.1), RED, fill), base);
        }
    }
}

#[test]
fn text_is_centered_on_the_anchor() {
    // 5 glyphs at 2 pixels each: shift = 5 * 2 / 2 = 5 pixels left
    let out = renderer(10, 10).draw_text("hello", RED, (12, 8));
    assert_eq!(out.len(), 1);
    match &out[0] {
        Primitive::Text { pos, content, color } => {
            assert_eq!(content, "hello");
            assert_eq!(*color, RED);
            assert_eq!(pos.x_num, 12 - 5);
            // y is unshifted
            assert_eq!(pos.y_num, 40 - 8);
        }
        other => panic!("expected text, got {other:?}"),
    }
}

#[test]
fn empty_text_is_not_shifted() {
    let out = renderer(10, 10).draw_text("", RED, (7, 3));
    match &out[0] {
        Primitive::Text { pos, content, .. } => {
            assert_eq!(content, "");
            assert_eq!(pos.x_num, 7);
            assert_eq!(pos.y_num, 37);
        }
        other => panic!("expected text, got {other:?}"),
    }
}

#[test]
fn estimate_text_size_is_proportional_to_glyph_count() {
    let r = renderer(10, 10);
    assert_eq!(r.estimate_text_size("hello"), (10, 4));
    assert_eq!(r.estimate_text_size(""), (0, 4));
    // glyphs are counted, not bytes
    assert_eq!(r.estimate_text_size("déjà"), (8, 4));
}
