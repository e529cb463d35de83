use browser_shell::geometry::{gen_vao, VertexLayout, RECT_BOTTOM, RECT_LEFT, RECT_RIGHT, RECT_TOP, VERTEX_COUNT};
use browser_shell::ndc::pixel_to_ndc;
use browser_shell::ratio::Ratio;

fn value(r: Ratio) -> f64 {
    r.num as f64 / r.den as f64
}

#[test]
fn ratio_new_keeps_both_parts() {
    let r = Ratio::new(-3, 7);
    assert_eq!(r.num, -3);
    assert_eq!(r.den, 7);
    assert!(r.is_defined());
    assert!(!Ratio::new(1, 0).is_defined());
}

#[test]
fn pixel_to_ndc_example_point() {
    let (x, y) = pixel_to_ndc(800, 600, 10, 5);
    assert_eq!(x, Ratio { num: -780, den: 800 });
    assert_eq!(y, Ratio { num: 590, den: 600 });
    assert!((value(x) - (-0.975)).abs() < 1e-12);
    assert!((value(y) - 0.983_333_333_333).abs() < 1e-9);
}

#[test]
fn pixel_to_ndc_window_corners() {
    assert_eq!(pixel_to_ndc(800, 600, 0, 0), (Ratio { num: -800, den: 800 }, Ratio { num: 600, den: 600 }));
    assert_eq!(pixel_to_ndc(800, 600, 800, 600), (Ratio { num: 800, den: 800 }, Ratio { num: -600, den: 600 }));
    let (cx, cy) = pixel_to_ndc(800, 600, 400, 300);
    assert_eq!(cx.num, 0);
    assert_eq!(cy.num, 0);
}

#[test]
fn pixel_to_ndc_flips_the_vertical_axis() {
    let (_, upper) = pixel_to_ndc(640, 480, 0, 10);
    let (_, lower) = pixel_to_ndc(640, 480, 0, 400);
    assert!(value(upper) > value(lower));
}

#[test]
fn pixel_to_ndc_without_extent_is_undefined() {
    let (x, y) = pixel_to_ndc(0, 0, 10, 5);
    assert_eq!(x, Ratio { num: 20, den: 0 });
    assert_eq!(y, Ratio { num: -10, den: 0 });
    assert!(!x.is_defined());
    assert!(!y.is_defined());
}

#[test]
fn pixel_to_ndc_extreme_arguments_do_not_overflow() {
    let (x, y) = pixel_to_ndc(i32::MIN, i32::MAX, i32::MAX, i32::MIN);
    assert_eq!(x.num, 2 * (i32::MAX as i64) - (i32::MIN as i64));
    assert_eq!(x.den, i32::MIN as i64);
    assert_eq!(y.num, (i32::MAX as i64) - 2 * (i32::MIN as i64));
    assert_eq!(y.den, i32::MAX as i64);
}

#[test]
fn rectangle_edges_are_fixed_in_pixels() {
    assert_eq!((RECT_LEFT, RECT_TOP, RECT_RIGHT, RECT_BOTTOM), (10, 5, 235, 40));
    assert_eq!(VERTEX_COUNT, 6);
}

#[test]
fn gen_vao_800_by_600() {
    let g = gen_vao(800, 600);
    let l = Ratio { num: -780, den: 800 };
    let r = Ratio { num: -330, den: 800 };
    let t = Ratio { num: 590, den: 600 };
    let b = Ratio { num: 520, den: 600 };
    assert_eq!(g.vertices, vec![l, t, r, t, r, b, r, b, l, b, l, t]);
    assert_eq!(g.layout, VertexLayout { index: 0, size: 2, normalized: false, stride: 8, offset: 0 });
}

#[test]
fn gen_vao_twice_gives_the_same_data() {
    assert_eq!(gen_vao(1024, 768), gen_vao(1024, 768));
    assert_ne!(gen_vao(1024, 768).vertices, gen_vao(1000, 500).vertices);
}

#[test]
fn gen_vao_keeps_the_rectangle_upright() {
    let g = gen_vao(300, 300);
    let (tl_x, tl_y) = (value(g.vertices[0]), value(g.vertices[1]));
    let tr_x = value(g.vertices[2]);
    let bl_y = value(g.vertices[9]);
    assert!(tl_x < tr_x);
    assert!(tl_y > bl_y);
    assert_eq!(g.vertices.len(), 12);
    assert_eq!(g.vertices[4], g.vertices[6]);
    assert_eq!(g.vertices[5], g.vertices[7]);
    assert_eq!(g.vertices[0], g.vertices[10]);
    assert_eq!(g.vertices[1], g.vertices[11]);
}
