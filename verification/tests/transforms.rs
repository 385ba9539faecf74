use viewport_engine::affine::{Affine, Point};
use viewport_engine::error::TransformError;
use viewport_engine::rational::Rat;
use viewport_engine::viewport::{
    aspect_ratio_correction, aspect_ratio_correction_from_points, general_transform,
    transform_point,
};

fn rat(n: i64, d: i64) -> Rat {
    Rat::new(n, d).unwrap()
}

fn point(x: i64, y: i64) -> Point {
    Point::from_ints(x, y)
}

fn point_frac(xn: i64, xd: i64, yn: i64, yd: i64) -> Point {
    Point::new(rat(xn, xd), rat(yn, yd)).unwrap()
}

#[test]
fn test_transform_point() {
    let affine = Affine::identity();
    let point = Point::from_ints(1, 1);
    let transformed_point = transform_point(&affine, &point).unwrap();
    assert!(transformed_point.equiv(&point));
}

#[test]
fn test_no_aspect_ratio_change() {
    let original_aspect_ratio = Rat::one();
    let new_aspect_ratio = Rat::one();
    let affine = aspect_ratio_correction(original_aspect_ratio, new_aspect_ratio).unwrap();
    let original_point = Point::from_ints(1, 1);
    let transformed_point = transform_point(&affine, &original_point).unwrap();
    assert!(transformed_point.equiv(&original_point));
}

#[test]
fn test_aspect_ratio() {
    let original_aspect_ratio = Rat::one();
    let new_aspect_ratio = Rat::from_int(2);
    let affine = aspect_ratio_correction(original_aspect_ratio, new_aspect_ratio).unwrap();
    let original_point = Point::from_ints(1, 1);
    let transformed_point = transform_point(&affine, &original_point).unwrap();
    let expected_point = point_frac(1, 1, 1, 2);
    assert!(transformed_point.equiv(&expected_point));
}

#[test]
fn identity_maps_points_to_themselves() {
    let id = Affine::identity();
    for &(x, y) in &[(0i64, 0i64), (-7, 13), (1000000, -999999)] {
        let p = point(x, y);
        assert!(transform_point(&id, &p).unwrap().equiv(&p));
    }
    let p = point_frac(-3, 4, 7, 5);
    assert!(transform_point(&id, &p).unwrap().equiv(&p));
}

#[test]
fn inverse_round_trip_is_exact() {
    // translate, then rotate by a 3-4-5 angle, then scale: a non-trivial,
    // non-singular transform.
    let t = Affine::translate(&point(3, 4));
    let r = Affine::rotate_cos_sin(rat(3, 5), rat(4, 5)).unwrap();
    let s = Affine::scale_uniform(rat(2, 1));
    let a = s.compose(&r.compose(&t).unwrap()).unwrap();
    let inv = a.inverse().unwrap();
    let p = point(5, -2);
    let image = a.apply_to_point(&p).unwrap();
    let back = inv.apply_to_point(&image).unwrap();
    assert!(back.equiv(&p));
}

#[test]
fn inverse_of_singular_matrix_fails() {
    let collapsed = Affine::scale_uniform(Rat::zero());
    assert_eq!(collapsed.inverse().unwrap_err(), TransformError::SingularMatrix);
    assert!(collapsed.is_singular());
    assert!(!Affine::identity().is_singular());
}

#[test]
fn inverse_overflow_is_reported() {
    let huge = Affine::scale_uniform(Rat::from_int(i64::MAX));
    assert_eq!(huge.inverse().unwrap_err(), TransformError::Overflow);
}

#[test]
fn aspect_ratio_correction_rejects_non_positive_ratios() {
    assert_eq!(
        aspect_ratio_correction(Rat::zero(), Rat::one()).unwrap_err(),
        TransformError::DegenerateRect
    );
    assert_eq!(
        aspect_ratio_correction(Rat::one(), Rat::from_int(-2)).unwrap_err(),
        TransformError::DegenerateRect
    );
}

#[test]
fn aspect_ratio_correction_shrinks_only() {
    // viewport 4:3 content shown at 16:9: x keeps, y shrinks by
    // (4/3)/(16/9) = 3/4.
    let affine = aspect_ratio_correction(rat(4, 3), rat(16, 9)).unwrap();
    let p = point(1, 1);
    let expected = point_frac(1, 1, 3, 4);
    assert!(transform_point(&affine, &p).unwrap().equiv(&expected));
}

#[test]
fn aspect_ratio_correction_from_points_scales_extents() {
    let affine =
        aspect_ratio_correction_from_points(rat(2, 1), rat(2, 1), rat(3, 1), rat(2, 1)).unwrap();
    let p = point(2, 2);
    let expected = point(3, 2);
    assert!(transform_point(&affine, &p).unwrap().equiv(&expected));
}

#[test]
fn aspect_ratio_correction_from_points_rejects_zero_extent() {
    assert_eq!(
        aspect_ratio_correction_from_points(Rat::zero(), rat(2, 1), rat(3, 1), rat(2, 1))
            .unwrap_err(),
        TransformError::DegenerateRect
    );
}

#[test]
fn general_transform_maps_corners() {
    let omin = point(0, 0);
    let omax = point(800, 600);
    let nmin = point(-2, -1);
    let nmax = point(1, 1);
    let m = general_transform(&omin, &omax, &nmin, &nmax).unwrap();
    assert!(transform_point(&m, &omin).unwrap().equiv(&nmin));
    assert!(transform_point(&m, &omax).unwrap().equiv(&nmax));
    let center = point(400, 300);
    let expected = point_frac(-1, 2, 0, 1);
    assert!(transform_point(&m, &center).unwrap().equiv(&expected));
}

#[test]
fn general_transform_rejects_degenerate_original() {
    let omin = point(5, 0);
    let omax = point(5, 600);
    assert_eq!(
        general_transform(&omin, &omax, &point(0, 0), &point(1, 1)).unwrap_err(),
        TransformError::DegenerateRect
    );
}

#[test]
fn rational_arithmetic_is_exact() {
    let a = rat(1, 3);
    let b = rat(1, 6);
    assert!(a.add(b).unwrap().equiv(rat(1, 2)));
    assert!(a.sub(b).unwrap().equiv(rat(1, 6)));
    assert!(a.mul(b).unwrap().equiv(rat(1, 18)));
    assert!(a.div(b).unwrap().equiv(rat(2, 1)));
    assert!(rat(-3, -6).equiv(rat(1, 2)));
    assert!(Rat::new(1, 0).is_none());
    assert!(rat(1, 2).le(rat(2, 3)));
    assert!(!rat(2, 3).le(rat(1, 2)));
    assert!(rat(7, 5).min(rat(3, 2)).equiv(rat(7, 5)));
}

#[test]
fn rational_overflow_returns_none() {
    let top = Rat::from_int(i64::MAX);
    assert!(top.mul(Rat::from_int(2)).is_none());
    assert!(top.add(Rat::from_int(1)).is_none());
    assert!(Rat::from_int(i64::MIN).neg().is_none());
}

#[test]
fn rational_powers() {
    let base = rat(21, 20);
    assert!(base.pow(0).unwrap().equiv(Rat::one()));
    assert!(base.pow(2).unwrap().equiv(rat(441, 400)));
    assert!(base.pow(-1).unwrap().equiv(rat(20, 21)));
    assert!(base.pow(-2).unwrap().equiv(rat(400, 441)));
    assert!(Rat::zero().pow(-1).is_none());
}

#[test]
fn composition_applies_right_factor_first() {
    // scale by 2, then translate by (1, 0).
    let s = Affine::scale_uniform(rat(2, 1));
    let t = Affine::translate(&point(1, 0));
    let m = t.compose(&s).unwrap();
    let p = point(3, 5);
    let expected = point(7, 10);
    assert!(m.apply_to_point(&p).unwrap().equiv(&expected));
}
