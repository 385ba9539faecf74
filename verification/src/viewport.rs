//! Viewport mapping: aspect-ratio correction and rectangle-to-rectangle
//! remapping.
//!
//! The aspect-ratio correction shrinks content uniformly on whichever axis
//! would otherwise overflow a viewport of a different aspect ratio; it never
//! stretches. The general transform remaps one axis-aligned rectangle onto
//! another exactly, with independent scales, and is used where bounds must be
//! mapped without aspect correction.

use vstd::prelude::*;

use crate::affine::{
    Affine, AffineModel, Point, PointModel, affine_compose, identity_model, model_in_i64,
    point_frac_x, point_frac_y, point_in_i64, scale_model, translate_model,
};
use crate::error::TransformError;
use crate::rational::{
    Frac, Rat, frac_div, frac_eq, frac_in_i64, frac_min, frac_mul, frac_one, frac_sub,
};

verus! {

/// The x scale of the aspect correction: `min(1, new/original)`.
pub open spec fn aspect_x_scale(original: Frac, new: Frac) -> Frac {
    frac_min(frac_one(), frac_div(new, original))
}

/// The y scale of the aspect correction: `min(1, original/new)`.
pub open spec fn aspect_y_scale(original: Frac, new: Frac) -> Frac {
    frac_min(frac_one(), frac_div(original, new))
}

/// The exact aspect-correction transform for a pair of aspect ratios.
pub open spec fn aspect_correction_model(original: Frac, new: Frac) -> AffineModel {
    scale_model(aspect_x_scale(original, new), aspect_y_scale(original, new))
}

/// All components of the exact aspect correction fit in `i64`.
pub open spec fn aspect_correction_fits(original: Frac, new: Frac) -> bool {
    &&& frac_in_i64(frac_div(new, original))
    &&& frac_in_i64(frac_div(original, new))
    &&& model_in_i64(aspect_correction_model(original, new))
}

/// The transform that scales content drawn for one aspect ratio so that it
/// shows undistorted at another: each axis is scaled by at most one, so the
/// content is only ever shrunk on the axis that would otherwise overflow.
///
/// Fails with `DegenerateRect` exactly when either ratio is not positive, and
/// with `Overflow` exactly when a component of the exact result leaves `i64`.
pub fn aspect_ratio_correction(original_aspect_ratio: Rat, new_aspect_ratio: Rat) -> (r: Result<
    Affine,
    TransformError,
>)
    requires
        original_aspect_ratio.wf(),
        new_aspect_ratio.wf(),
    ensures
        r matches Ok(m) <==> original_aspect_ratio@.n > 0 && new_aspect_ratio@.n > 0
            && aspect_correction_fits(original_aspect_ratio@, new_aspect_ratio@),
        r matches Ok(m) ==> m.wf() && m@ == aspect_correction_model(
            original_aspect_ratio@,
            new_aspect_ratio@,
        ),
        r == Err::<Affine, TransformError>(TransformError::DegenerateRect) <==> !(
        original_aspect_ratio@.n > 0 && new_aspect_ratio@.n > 0),
        r == Err::<Affine, TransformError>(TransformError::Overflow) <==> original_aspect_ratio@.n
            > 0 && new_aspect_ratio@.n > 0 && !aspect_correction_fits(
            original_aspect_ratio@,
            new_aspect_ratio@,
        ),
{
    let zero = Rat::zero();
    if original_aspect_ratio.le(zero) || new_aspect_ratio.le(zero) {
        return Err(TransformError::DegenerateRect);
    }
    let x_div = match new_aspect_ratio.div(original_aspect_ratio) {
        Some(v) => v,
        None => {
            return Err(TransformError::Overflow);
        },
    };
    let y_div = match original_aspect_ratio.div(new_aspect_ratio) {
        Some(v) => v,
        None => {
            return Err(TransformError::Overflow);
        },
    };
    let x_scale = Rat::one().min(x_div);
    let y_scale = Rat::one().min(y_div);
    match Affine::scale_non_uniform(x_scale, y_scale) {
        Some(m) => Ok(m),
        None => Err(TransformError::Overflow),
    }
}

/// When the two aspect ratios denote the same value, the aspect correction
/// is exactly the identity transform.
pub proof fn lemma_aspect_correction_identity(original: Frac, new: Frac)
    requires
        original.d > 0,
        new.d > 0,
        original.n > 0,
        new.n > 0,
        frac_eq(original, new),
    ensures
        aspect_correction_model(original, new) == identity_model(),
{
    vstd::arithmetic::mul::lemma_mul_is_commutative(original.n, new.d);
    vstd::arithmetic::mul::lemma_mul_is_commutative(original.d, new.n);
    assert(aspect_x_scale(original, new) == frac_one());
    assert(aspect_y_scale(original, new) == frac_one());
}

/// The exact non-uniform scale mapping a vertex-space extent onto a
/// content-space extent.
pub open spec fn extent_scale_model(
    vertex_width: Frac,
    vertex_height: Frac,
    content_width: Frac,
    content_height: Frac,
) -> AffineModel {
    scale_model(frac_div(content_width, vertex_width), frac_div(content_height, vertex_height))
}

/// All components of the exact extent scale fit in `i64`.
pub open spec fn extent_scale_fits(
    vertex_width: Frac,
    vertex_height: Frac,
    content_width: Frac,
    content_height: Frac,
) -> bool {
    &&& frac_in_i64(frac_div(content_width, vertex_width))
    &&& frac_in_i64(frac_div(content_height, vertex_height))
    &&& model_in_i64(extent_scale_model(vertex_width, vertex_height, content_width, content_height))
}

/// The transform that scales one rectangle's extents onto another's: x is
/// scaled by `content_width / vertex_width` and y by
/// `content_height / vertex_height`.
///
/// Fails with `DegenerateRect` exactly when a vertex extent is zero, and with
/// `Overflow` exactly when a component of the exact result leaves `i64`.
pub fn aspect_ratio_correction_from_points(
    vertex_width: Rat,
    vertex_height: Rat,
    content_width: Rat,
    content_height: Rat,
) -> (r: Result<Affine, TransformError>)
    requires
        vertex_width.wf(),
        vertex_height.wf(),
        content_width.wf(),
        content_height.wf(),
    ensures
        r matches Ok(m) <==> vertex_width@.n != 0 && vertex_height@.n != 0 && extent_scale_fits(
            vertex_width@,
            vertex_height@,
            content_width@,
            content_height@,
        ),
        r matches Ok(m) ==> m.wf() && m@ == extent_scale_model(
            vertex_width@,
            vertex_height@,
            content_width@,
            content_height@,
        ),
        r == Err::<Affine, TransformError>(TransformError::DegenerateRect) <==> (vertex_width@.n
            == 0 || vertex_height@.n == 0),
        r == Err::<Affine, TransformError>(TransformError::Overflow) <==> vertex_width@.n != 0
            && vertex_height@.n != 0 && !extent_scale_fits(
            vertex_width@,
            vertex_height@,
            content_width@,
            content_height@,
        ),
{
    if vertex_width.is_zero() || vertex_height.is_zero() {
        return Err(TransformError::DegenerateRect);
    }
    let scale_x = match content_width.div(vertex_width) {
        Some(v) => v,
        None => {
            return Err(TransformError::Overflow);
        },
    };
    let scale_y = match content_height.div(vertex_height) {
        Some(v) => v,
        None => {
            return Err(TransformError::Overflow);
        },
    };
    match Affine::scale_non_uniform(scale_x, scale_y) {
        Some(m) => Ok(m),
        None => Err(TransformError::Overflow),
    }
}

/// The x scale of the rectangle remap: new x extent over original x extent.
pub open spec fn gt_sx(o0: PointModel, o1: PointModel, n0: PointModel, n1: PointModel) -> Frac {
    frac_div(
        frac_sub(point_frac_x(n1), point_frac_x(n0)),
        frac_sub(point_frac_x(o1), point_frac_x(o0)),
    )
}

/// The y scale of the rectangle remap: new y extent over original y extent.
pub open spec fn gt_sy(o0: PointModel, o1: PointModel, n0: PointModel, n1: PointModel) -> Frac {
    frac_div(
        frac_sub(point_frac_y(n1), point_frac_y(n0)),
        frac_sub(point_frac_y(o1), point_frac_y(o0)),
    )
}

/// The x translation of the rectangle remap: where the scaled original
/// minimum must land.
pub open spec fn gt_tx(o0: PointModel, o1: PointModel, n0: PointModel, n1: PointModel) -> Frac {
    frac_sub(point_frac_x(n0), frac_mul(point_frac_x(o0), gt_sx(o0, o1, n0, n1)))
}

/// The y translation of the rectangle remap.
pub open spec fn gt_ty(o0: PointModel, o1: PointModel, n0: PointModel, n1: PointModel) -> Frac {
    frac_sub(point_frac_y(n0), frac_mul(point_frac_y(o0), gt_sy(o0, o1, n0, n1)))
}

/// The remap translation as a point over one common denominator.
pub open spec fn gt_translation(
    o0: PointModel,
    o1: PointModel,
    n0: PointModel,
    n1: PointModel,
) -> PointModel {
    PointModel {
        x: gt_tx(o0, o1, n0, n1).n * gt_ty(o0, o1, n0, n1).d,
        y: gt_ty(o0, o1, n0, n1).n * gt_tx(o0, o1, n0, n1).d,
        den: gt_tx(o0, o1, n0, n1).d * gt_ty(o0, o1, n0, n1).d,
    }
}

/// The exact rectangle remap: translate after scale.
pub open spec fn general_transform_model(
    o0: PointModel,
    o1: PointModel,
    n0: PointModel,
    n1: PointModel,
) -> AffineModel {
    affine_compose(
        translate_model(gt_translation(o0, o1, n0, n1)),
        scale_model(gt_sx(o0, o1, n0, n1), gt_sy(o0, o1, n0, n1)),
    )
}

/// The original rectangle has zero width or zero height.
pub open spec fn gt_degenerate(o0: PointModel, o1: PointModel) -> bool {
    frac_eq(point_frac_x(o1), point_frac_x(o0)) || frac_eq(point_frac_y(o1), point_frac_y(o0))
}

/// Every intermediate and final component of the exact rectangle remap fits
/// in `i64`.
pub open spec fn general_transform_fits(
    o0: PointModel,
    o1: PointModel,
    n0: PointModel,
    n1: PointModel,
) -> bool {
    &&& frac_in_i64(frac_sub(point_frac_x(o1), point_frac_x(o0)))
    &&& frac_in_i64(frac_sub(point_frac_y(o1), point_frac_y(o0)))
    &&& frac_in_i64(frac_sub(point_frac_x(n1), point_frac_x(n0)))
    &&& frac_in_i64(frac_sub(point_frac_y(n1), point_frac_y(n0)))
    &&& frac_in_i64(gt_sx(o0, o1, n0, n1))
    &&& frac_in_i64(gt_sy(o0, o1, n0, n1))
    &&& frac_in_i64(frac_mul(point_frac_x(o0), gt_sx(o0, o1, n0, n1)))
    &&& frac_in_i64(frac_mul(point_frac_y(o0), gt_sy(o0, o1, n0, n1)))
    &&& frac_in_i64(gt_tx(o0, o1, n0, n1))
    &&& frac_in_i64(gt_ty(o0, o1, n0, n1))
    &&& point_in_i64(gt_translation(o0, o1, n0, n1))
    &&& model_in_i64(scale_model(gt_sx(o0, o1, n0, n1), gt_sy(o0, o1, n0, n1)))
    &&& model_in_i64(general_transform_model(o0, o1, n0, n1))
}

/// The affine transform that maps the axis-aligned rectangle spanned by
/// `original_min`/`original_max` onto the one spanned by `new_min`/`new_max`:
/// independent scales along each axis, then a translation (no aspect
/// correction).
///
/// Fails with `DegenerateRect` exactly when the original rectangle has zero
/// width or height, and with `Overflow` exactly when a component of the
/// exact remap leaves `i64`.
pub fn general_transform(
    original_min: &Point,
    original_max: &Point,
    new_min: &Point,
    new_max: &Point,
) -> (r: Result<Affine, TransformError>)
    requires
        original_min.wf(),
        original_max.wf(),
        new_min.wf(),
        new_max.wf(),
    ensures
        r matches Ok(m) <==> !gt_degenerate(original_min@, original_max@)
            && general_transform_fits(original_min@, original_max@, new_min@, new_max@),
        r matches Ok(m) ==> m.wf() && m@ == general_transform_model(
            original_min@,
            original_max@,
            new_min@,
            new_max@,
        ),
        r == Err::<Affine, TransformError>(TransformError::DegenerateRect) <==> gt_degenerate(
            original_min@,
            original_max@,
        ),
        r == Err::<Affine, TransformError>(TransformError::Overflow) <==> !gt_degenerate(
            original_min@,
            original_max@,
        ) && !general_transform_fits(original_min@, original_max@, new_min@, new_max@),
{
    if original_max.x().equiv(original_min.x()) || original_max.y().equiv(original_min.y()) {
        return Err(TransformError::DegenerateRect);
    }
    let ox_span = match original_max.x().sub(original_min.x()) {
        Some(v) => v,
        None => {
            return Err(TransformError::Overflow);
        },
    };
    let oy_span = match original_max.y().sub(original_min.y()) {
        Some(v) => v,
        None => {
            return Err(TransformError::Overflow);
        },
    };
    let nx_span = match new_max.x().sub(new_min.x()) {
        Some(v) => v,
        None => {
            return Err(TransformError::Overflow);
        },
    };
    let ny_span = match new_max.y().sub(new_min.y()) {
        Some(v) => v,
        None => {
            return Err(TransformError::Overflow);
        },
    };
    let scale_x = match nx_span.div(ox_span) {
        Some(v) => v,
        None => {
            return Err(TransformError::Overflow);
        },
    };
    let scale_y = match ny_span.div(oy_span) {
        Some(v) => v,
        None => {
            return Err(TransformError::Overflow);
        },
    };
    let scaled_ox = match original_min.x().mul(scale_x) {
        Some(v) => v,
        None => {
            return Err(TransformError::Overflow);
        },
    };
    let scaled_oy = match original_min.y().mul(scale_y) {
        Some(v) => v,
        None => {
            return Err(TransformError::Overflow);
        },
    };
    let translate_x = match new_min.x().sub(scaled_ox) {
        Some(v) => v,
        None => {
            return Err(TransformError::Overflow);
        },
    };
    let translate_y = match new_min.y().sub(scaled_oy) {
        Some(v) => v,
        None => {
            return Err(TransformError::Overflow);
        },
    };
    let translation = match Point::new(translate_x, translate_y) {
        Some(v) => v,
        None => {
            return Err(TransformError::Overflow);
        },
    };
    let scale_transform = match Affine::scale_non_uniform(scale_x, scale_y) {
        Some(v) => v,
        None => {
            return Err(TransformError::Overflow);
        },
    };
    let translate_transform = Affine::translate(&translation);
    match translate_transform.compose(&scale_transform) {
        Some(m) => Ok(m),
        None => Err(TransformError::Overflow),
    }
}

/// The exact image of a point under an affine transform (the same operation
/// as `Affine::apply_to_point`, as a free function). `None` exactly when a
/// coordinate of the exact image leaves `i64`.
pub fn transform_point(affine: &Affine, point: &Point) -> (r: Option<Point>)
    requires
        affine.wf(),
        point.wf(),
    ensures
        r is Some <==> point_in_i64(crate::affine::affine_apply(affine@, point@)),
        r matches Some(q) ==> q.wf() && q@ == crate::affine::affine_apply(affine@, point@),
{
    affine.apply_to_point(point)
}

} // verus!
