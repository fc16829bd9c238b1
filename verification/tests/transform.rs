//! The camera transforms: round trip, window-to-NDC convention, uniforms.

use crank::CenteredView;
use crank::Scalar;
use crank::Vec2;
use crank::window_to_ndc;

fn int_scalar(n: i64) -> Scalar {
    Scalar::from_int(n)
}

#[test]
fn round_trip_integer_point() {
    let view = CenteredView::new(Vec2::from_ints(3, 4), Vec2::from_ints(100, 50));
    let p = Vec2::from_ints(-7, 9);
    let q = view.world_to_ndc(p);
    let w = view.ndc_to_world(q);
    assert!(w.x.same_ratio(p.x));
    assert!(w.y.same_ratio(p.y));
}

#[test]
fn round_trip_fractional_point() {
    let view = CenteredView::new(
        Vec2::new(Scalar { num: 1, den: 2 }, Scalar { num: -5, den: 3 }),
        Vec2::new(Scalar { num: 512, den: 1 }, Scalar { num: 7, den: 2 }),
    );
    let p = Vec2::new(Scalar { num: 22, den: 7 }, Scalar { num: -1, den: 3 });
    let q = view.world_to_ndc(p);
    let w = view.ndc_to_world(q);
    assert!(w.x.same_ratio(p.x));
    assert!(w.y.same_ratio(p.y));
}

#[test]
fn world_to_ndc_center_maps_to_origin() {
    let view = CenteredView::new(Vec2::from_ints(10, 20), Vec2::from_ints(512, 512));
    let q = view.world_to_ndc(Vec2::from_ints(10, 20));
    assert!(q.x.same_ratio(int_scalar(0)));
    assert!(q.y.same_ratio(int_scalar(0)));
}

#[test]
fn world_to_ndc_right_edge_maps_to_one() {
    // Center 0, size 512: world x = 256 is the right edge, NDC x = 1.
    let view = CenteredView::new(Vec2::from_ints(0, 0), Vec2::from_ints(512, 512));
    let q = view.world_to_ndc(Vec2::from_ints(256, 128));
    assert!(q.x.same_ratio(int_scalar(1)));
    assert!(q.y.same_ratio(Scalar { num: 1, den: 2 }));
}

#[test]
fn window_center_pixel_maps_to_ndc_origin() {
    let ndc = window_to_ndc(256, 256, 512, 512);
    assert!(ndc.x.same_ratio(int_scalar(0)));
    assert!(ndc.y.same_ratio(int_scalar(0)));
}

#[test]
fn window_origin_pixel_maps_to_top_left_ndc() {
    // The pixel origin is the top-left corner; y is flipped into GL's
    // upward-growing NDC y, so pixel (0, 0) is NDC (-1, 1).
    let ndc = window_to_ndc(0, 0, 512, 512);
    assert!(ndc.x.same_ratio(int_scalar(-1)));
    assert!(ndc.y.same_ratio(int_scalar(1)));
}

#[test]
fn window_far_corner_pixel_maps_to_bottom_right_ndc() {
    let ndc = window_to_ndc(512, 512, 512, 512);
    assert!(ndc.x.same_ratio(int_scalar(1)));
    assert!(ndc.y.same_ratio(int_scalar(-1)));
}

#[test]
fn identity_view_keeps_world_coordinates() {
    let view = CenteredView::identity();
    let p = Vec2::new(Scalar { num: 1, den: 4 }, Scalar { num: -3, den: 5 });
    let q = view.world_to_ndc(p);
    assert!(q.x.same_ratio(p.x));
    assert!(q.y.same_ratio(p.y));
}

#[test]
fn transformation_of_centered_view_is_exact() {
    let view = CenteredView::new(Vec2::from_ints(0, 0), Vec2::from_ints(512, 512));
    let (translation, scale) = view.get_transformation();
    // scale = 2 / 512 per axis, exactly.
    assert_eq!(scale.x.num, 2);
    assert_eq!(scale.x.den, 512);
    assert_eq!(scale.y.num, 2);
    assert_eq!(scale.y.den, 512);
    // translation = -center * scale = 0, exactly.
    assert!(translation.x.same_ratio(int_scalar(0)));
    assert!(translation.y.same_ratio(int_scalar(0)));
}

#[test]
fn transformation_of_offset_view() {
    let view = CenteredView::new(Vec2::from_ints(100, -40), Vec2::from_ints(200, 80));
    let (translation, scale) = view.get_transformation();
    // scale = 2 / size: 1/100 and 1/40.
    assert!(scale.x.same_ratio(Scalar { num: 1, den: 100 }));
    assert!(scale.y.same_ratio(Scalar { num: 1, den: 40 }));
    // translation = -center * scale: -1 and 1.
    assert!(translation.x.same_ratio(int_scalar(-1)));
    assert!(translation.y.same_ratio(int_scalar(1)));
}

#[test]
fn scalar_arithmetic_is_exact() {
    let a = Scalar { num: 1, den: 3 };
    let b = Scalar { num: 1, den: 6 };
    let sum = a.plus(b);
    assert!(sum.same_ratio(Scalar { num: 1, den: 2 }));
    let diff = a.minus(b);
    assert!(diff.same_ratio(Scalar { num: 1, den: 6 }));
    let prod = a.times(b);
    assert!(prod.same_ratio(Scalar { num: 1, den: 18 }));
    let h = a.half();
    assert!(h.same_ratio(Scalar { num: 1, den: 6 }));
    let n = a.neg();
    assert!(n.same_ratio(Scalar { num: -1, den: 3 }));
    assert!(!a.same_ratio(b));
}
