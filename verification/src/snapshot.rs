//! The uniform snapshot builder: the fixed-layout record handed to the
//! rendering boundary each frame.
//!
//! Two modes are supported. Direct mode packs the raw transform coefficients
//! and viewport size. Mapped mode composes the aspect-ratio correction, the
//! device-to-content bounds mapper, and the inverse of the current transform
//! into one transform, so the renderer receives a single matrix mapping
//! device pixels into logical content coordinates. A stage whose exact value
//! cannot be formed (a singular or overflowing inverse, degenerate device
//! bounds, an overflowing composition) falls back to the identity for that
//! stage; every contract says exactly when that happens.

use vstd::prelude::*;

use crate::affine::{
    Affine, AffineModel, Point, PointModel, affine_compose, affine_inverse, det_raw,
    identity_model, model_in_i64, point_frac_x, point_frac_y,
};
use crate::rational::{Frac, Rat, frac_div, frac_in_i64, frac_sub};
use crate::state::{ConfigModel, EngineConfig, StateModel, ViewState};
use crate::viewport::{
    aspect_correction_fits, aspect_correction_model, aspect_ratio_correction, general_transform,
    general_transform_fits, general_transform_model, gt_degenerate,
};

verus! {

/// The renderer-facing record: one affine transform (six exact coefficients)
/// and the viewport size in device pixels. The rendering boundary packs the
/// coefficients, in the order a, b, c, d, e, f, into its fixed-layout,
/// padded uniform structure.
#[derive(Clone, Copy, Debug)]
pub struct UniformSnapshot {
    /// The transform the renderer applies per pixel.
    pub transform: Affine,
    /// Viewport width in device pixels.
    pub viewport_width: u32,
    /// Viewport height in device pixels.
    pub viewport_height: u32,
}

impl UniformSnapshot {
    /// The packed transform is well-formed.
    pub open spec fn wf(self) -> bool {
        self.transform.wf()
    }
}

/// The exact inverse of the transform, or the identity when the transform is
/// singular or its exact inverse does not fit.
pub open spec fn inverse_or_identity_model(t: AffineModel) -> AffineModel {
    if det_raw(t) != 0 && model_in_i64(affine_inverse(t)) {
        affine_inverse(t)
    } else {
        identity_model()
    }
}

/// The inverse of the current transform, falling back to the identity when
/// no exact inverse value exists (recovering locally, as a singular matrix
/// here can only arise from pathological input).
pub fn inverse_or_identity(t: &Affine) -> (r: Affine)
    requires
        t.wf(),
    ensures
        r.wf(),
        r@ == inverse_or_identity_model(t@),
{
    match t.inverse() {
        Ok(m) => m,
        Err(_) => Affine::identity(),
    }
}

/// The device rectangle's minimum corner (the origin).
pub open spec fn device_min() -> PointModel {
    PointModel { x: 0, y: 0, den: 1 }
}

/// The device rectangle's maximum corner (the viewport size).
pub open spec fn device_max(w: int, h: int) -> PointModel {
    PointModel { x: w, y: h, den: 1 }
}

/// The exact device-to-content bounds mapper, or the identity when the
/// device rectangle is degenerate or the exact remap does not fit.
pub open spec fn device_to_content_model(
    w: int,
    h: int,
    cmin: PointModel,
    cmax: PointModel,
) -> AffineModel {
    if !gt_degenerate(device_min(), device_max(w, h)) && general_transform_fits(
        device_min(),
        device_max(w, h),
        cmin,
        cmax,
    ) {
        general_transform_model(device_min(), device_max(w, h), cmin, cmax)
    } else {
        identity_model()
    }
}

/// The transform mapping the device rectangle onto the logical content
/// bounds, falling back to the identity when it cannot be formed.
pub fn device_to_content(w: u32, h: u32, cmin: &Point, cmax: &Point) -> (r: Affine)
    requires
        cmin.wf(),
        cmax.wf(),
    ensures
        r.wf(),
        r@ == device_to_content_model(w as int, h as int, cmin@, cmax@),
{
    let dmin = Point::from_ints(0, 0);
    let dmax = Point::from_ints(w as i64, h as i64);
    match general_transform(&dmin, &dmax, cmin, cmax) {
        Ok(m) => m,
        Err(_) => Affine::identity(),
    }
}

/// The viewport aspect ratio, width over height.
pub open spec fn viewport_aspect(w: int, h: int) -> Frac {
    Frac { n: w, d: h }
}

/// The content aspect ratio: width extent over height extent of the bounds.
pub open spec fn content_aspect(cmin: PointModel, cmax: PointModel) -> Frac {
    frac_div(
        frac_sub(point_frac_x(cmax), point_frac_x(cmin)),
        frac_sub(point_frac_y(cmax), point_frac_y(cmin)),
    )
}

/// Every stage of the exact inverted aspect correction can be formed: a
/// usable viewport, representable aspect ratios, a correction that fits, and
/// an invertible, representable inverse.
pub open spec fn correction_inverse_fits(
    w: int,
    h: int,
    cmin: PointModel,
    cmax: PointModel,
) -> bool {
    &&& h > 0
    &&& frac_in_i64(frac_sub(point_frac_x(cmax), point_frac_x(cmin)))
    &&& frac_in_i64(frac_sub(point_frac_y(cmax), point_frac_y(cmin)))
    &&& frac_sub(point_frac_y(cmax), point_frac_y(cmin)).n != 0
    &&& frac_in_i64(content_aspect(cmin, cmax))
    &&& w > 0
    &&& content_aspect(cmin, cmax).n > 0
    &&& aspect_correction_fits(viewport_aspect(w, h), content_aspect(cmin, cmax))
    &&& det_raw(aspect_correction_model(viewport_aspect(w, h), content_aspect(cmin, cmax))) != 0
    &&& model_in_i64(
        affine_inverse(aspect_correction_model(viewport_aspect(w, h), content_aspect(cmin, cmax))),
    )
}

/// The exact inverted aspect correction, or the identity when some stage of
/// it cannot be formed.
pub open spec fn correction_inverse_model(
    w: int,
    h: int,
    cmin: PointModel,
    cmax: PointModel,
) -> AffineModel {
    if correction_inverse_fits(w, h, cmin, cmax) {
        affine_inverse(aspect_correction_model(viewport_aspect(w, h), content_aspect(cmin, cmax)))
    } else {
        identity_model()
    }
}

/// The inverse of the aspect correction between the viewport aspect ratio
/// and the content aspect ratio (the inverse is what the renderer direction
/// needs: it swaps the two clamped scale factors), falling back to the
/// identity when it cannot be formed.
pub fn correction_inverse(w: u32, h: u32, cmin: &Point, cmax: &Point) -> (r: Affine)
    requires
        cmin.wf(),
        cmax.wf(),
    ensures
        r.wf(),
        r@ == correction_inverse_model(w as int, h as int, cmin@, cmax@),
{
    let va = match Rat::new(w as i64, h as i64) {
        Some(v) => v,
        None => {
            return Affine::identity();
        },
    };
    let span_x = match cmax.x().sub(cmin.x()) {
        Some(v) => v,
        None => {
            return Affine::identity();
        },
    };
    let span_y = match cmax.y().sub(cmin.y()) {
        Some(v) => v,
        None => {
            return Affine::identity();
        },
    };
    let ca = match span_x.div(span_y) {
        Some(v) => v,
        None => {
            return Affine::identity();
        },
    };
    let correction = match aspect_ratio_correction(va, ca) {
        Ok(m) => m,
        Err(_) => {
            return Affine::identity();
        },
    };
    match correction.inverse() {
        Ok(m) => m,
        Err(_) => Affine::identity(),
    }
}

/// The exact mapped-mode transform: the inverted aspect correction, then the
/// bounds mapper, then the inverse of the current transform, composed right
/// to left, with an identity fallback for a composition whose exact value
/// does not fit.
pub open spec fn mapped_transform_model(s: StateModel, cfg: ConfigModel) -> AffineModel {
    let inv = inverse_or_identity_model(s.transform);
    let mapper = device_to_content_model(
        s.viewport_width,
        s.viewport_height,
        cfg.content_min,
        cfg.content_max,
    );
    let corr = correction_inverse_model(
        s.viewport_width,
        s.viewport_height,
        cfg.content_min,
        cfg.content_max,
    );
    let first = if model_in_i64(affine_compose(corr, mapper)) {
        affine_compose(corr, mapper)
    } else {
        identity_model()
    };
    if model_in_i64(affine_compose(first, inv)) {
        affine_compose(first, inv)
    } else {
        identity_model()
    }
}

/// Direct mode: pack the raw transform coefficients and the viewport size.
pub fn direct_snapshot(state: &ViewState) -> (r: UniformSnapshot)
    requires
        state.wf(),
    ensures
        r.wf(),
        r.transform@ == state@.transform,
        r.viewport_width as int == state@.viewport_width,
        r.viewport_height as int == state@.viewport_height,
{
    UniformSnapshot {
        transform: state.transform(),
        viewport_width: state.viewport_width(),
        viewport_height: state.viewport_height(),
    }
}

/// Mapped mode: pack one transform taking device pixels into logical content
/// coordinates — the inverse of the user's transform, mapped through the
/// content bounds and corrected for the viewport aspect ratio — and the
/// viewport size.
pub fn mapped_snapshot(state: &ViewState, cfg: &EngineConfig) -> (r: UniformSnapshot)
    requires
        state.wf(),
        cfg.wf(),
    ensures
        r.wf(),
        r.transform@ == mapped_transform_model(state@, cfg@),
        r.viewport_width as int == state@.viewport_width,
        r.viewport_height as int == state@.viewport_height,
{
    let current = state.transform();
    let inv = inverse_or_identity(&current);
    let cmin = cfg.content_min();
    let cmax = cfg.content_max();
    let mapper = device_to_content(state.viewport_width(), state.viewport_height(), &cmin, &cmax);
    let corr = correction_inverse(state.viewport_width(), state.viewport_height(), &cmin, &cmax);
    let first = match corr.compose(&mapper) {
        Some(m) => m,
        None => Affine::identity(),
    };
    let total = match first.compose(&inv) {
        Some(m) => m,
        None => Affine::identity(),
    };
    UniformSnapshot {
        transform: total,
        viewport_width: state.viewport_width(),
        viewport_height: state.viewport_height(),
    }
}

} // verus!
