//! The transform state and the input-event router.
//!
//! `ViewState` holds the session-long affine transform, the drag anchor (the
//! last known pointer position), the pointer-button flag, and the current
//! viewport size. `handle_event` turns each discrete input event into one
//! state mutation following the pivot-relative composition rules:
//!
//! - pan while dragging: `translate(position - anchor) * transform`, with the
//!   anchor updated on every move;
//! - wheel zoom: `translate(pivot) * scale(base^steps) * translate(-pivot) *
//!   transform`, with the last known pointer position as pivot;
//! - keyboard rotation: the same pivot-relative pattern with a fixed
//!   increment per keypress;
//! - reset: back to the identity, unconditionally;
//! - cursor leave: the anchor is cleared, so a later move cannot produce a
//!   jump from a stale anchor.
//!
//! A composition whose exact result does not fit the fixed-width
//! representation leaves the transform unchanged; every contract below says
//! exactly when that happens.

use vstd::prelude::*;

use crate::affine::{
    Affine, AffineModel, Point, PointModel, affine_compose, affine_model_wf, det_raw,
    identity_model, lemma_det_compose, lemma_pivoted_det, model_in_i64, neg_point, pivoted_model,
    point_frac_x, point_frac_y, point_in_i64, point_model_wf, rotate_model, scale_uniform_model,
    translate_model,
};
use crate::error::TransformError;
use crate::rational::{
    Frac, Rat, frac_in_i64, frac_inv, frac_neg, frac_pow, frac_sub, in_i64, lemma_mul_nonzero,
    lemma_mul_pos, lemma_pow_pos, pow_fits,
};

verus! {

/// A key the router reacts to.
#[derive(Clone, Copy, Debug, PartialEq, Eq, Structural)]
pub enum Key {
    /// Put the transform back to the identity.
    Reset,
    /// Rotate by one increment clockwise.
    RotateClockwise,
    /// Rotate by one increment counterclockwise.
    RotateCounterclockwise,
}

/// A discrete input event, delivered one at a time.
#[derive(Clone, Copy, Debug, PartialEq, Eq, Structural)]
pub enum InputEvent {
    /// The primary pointer button went down.
    PointerDown,
    /// The primary pointer button went up.
    PointerUp,
    /// The pointer moved to this position (device pixels).
    PointerMove(Point),
    /// The pointer left the window.
    PointerLeave,
    /// Wheel movement reported in pixels.
    WheelPixels(i64),
    /// Wheel movement reported in lines (one line is one zoom step).
    WheelLines(i64),
    /// A key press.
    KeyPress(Key),
    /// The viewport was resized to this width and height (device pixels).
    Resize(u32, u32),
}

/// Model of an input event: the same shape over point models.
pub enum EventModel {
    PointerDown,
    PointerUp,
    PointerMove(PointModel),
    PointerLeave,
    WheelPixels(int),
    WheelLines(int),
    KeyPress(Key),
    Resize(int, int),
}

impl View for InputEvent {
    type V = EventModel;

    open spec fn view(&self) -> EventModel {
        match *self {
            InputEvent::PointerDown => EventModel::PointerDown,
            InputEvent::PointerUp => EventModel::PointerUp,
            InputEvent::PointerMove(p) => EventModel::PointerMove(p@),
            InputEvent::PointerLeave => EventModel::PointerLeave,
            InputEvent::WheelPixels(d) => EventModel::WheelPixels(d as int),
            InputEvent::WheelLines(d) => EventModel::WheelLines(d as int),
            InputEvent::KeyPress(k) => EventModel::KeyPress(k),
            InputEvent::Resize(w, h) => EventModel::Resize(w as int, h as int),
        }
    }
}

/// Model of the engine configuration.
pub struct ConfigModel {
    pub zoom_base: Frac,
    pub pixels_per_line: int,
    pub rot_cos: Frac,
    pub rot_sin: Frac,
    pub content_min: PointModel,
    pub content_max: PointModel,
}

/// The configuration invariant: a positive zoom base, a positive
/// pixels-per-line divisor, a rotation increment that is not the zero vector
/// (and whose sine can be negated), and well-formed, non-degenerate content
/// bounds.
pub open spec fn config_model_wf(cfg: ConfigModel) -> bool {
    &&& cfg.zoom_base.d > 0
    &&& cfg.zoom_base.n > 0
    &&& cfg.pixels_per_line > 0
    &&& cfg.rot_cos.d > 0
    &&& cfg.rot_sin.d > 0
    &&& in_i64(-cfg.rot_sin.n)
    &&& !(cfg.rot_cos.n == 0 && cfg.rot_sin.n == 0)
    &&& point_model_wf(cfg.content_min)
    &&& point_model_wf(cfg.content_max)
    &&& !crate::viewport::gt_degenerate(cfg.content_min, cfg.content_max)
}

/// The session configuration: wheel zoom base, wheel pixels-per-line
/// divisor, the cosine and sine of the per-keypress rotation increment, and
/// the fixed logical content bounds.
#[derive(Clone, Copy, Debug)]
pub struct EngineConfig {
    zoom_base: Rat,
    pixels_per_line: i64,
    rot_cos: Rat,
    rot_sin: Rat,
    content_min: Point,
    content_max: Point,
}

impl View for EngineConfig {
    type V = ConfigModel;

    closed spec fn view(&self) -> ConfigModel {
        ConfigModel {
            zoom_base: self.zoom_base@,
            pixels_per_line: self.pixels_per_line as int,
            rot_cos: self.rot_cos@,
            rot_sin: self.rot_sin@,
            content_min: self.content_min@,
            content_max: self.content_max@,
        }
    }
}

impl EngineConfig {
    /// The components are well-formed and the model invariant holds.
    pub closed spec fn wf(self) -> bool {
        &&& self.zoom_base.wf()
        &&& self.rot_cos.wf()
        &&& self.rot_sin.wf()
        &&& self.content_min.wf()
        &&& self.content_max.wf()
        &&& config_model_wf(self@)
    }

    /// A well-formed configuration has a well-formed model.
    pub proof fn lemma_wf_model(self)
        requires
            self.wf(),
        ensures
            config_model_wf(self@),
    {
    }

    /// Builds a configuration from explicit parts. `None` exactly when the
    /// parts break the configuration invariant.
    pub fn new(
        zoom_base: Rat,
        pixels_per_line: i64,
        rot_cos: Rat,
        rot_sin: Rat,
        content_min: Point,
        content_max: Point,
    ) -> (r: Option<EngineConfig>)
        requires
            zoom_base.wf(),
            rot_cos.wf(),
            rot_sin.wf(),
            content_min.wf(),
            content_max.wf(),
        ensures
            r is Some <==> config_model_wf(
                ConfigModel {
                    zoom_base: zoom_base@,
                    pixels_per_line: pixels_per_line as int,
                    rot_cos: rot_cos@,
                    rot_sin: rot_sin@,
                    content_min: content_min@,
                    content_max: content_max@,
                },
            ),
            r matches Some(cfg) ==> cfg.wf() && cfg@ == (ConfigModel {
                zoom_base: zoom_base@,
                pixels_per_line: pixels_per_line as int,
                rot_cos: rot_cos@,
                rot_sin: rot_sin@,
                content_min: content_min@,
                content_max: content_max@,
            }),
    {
        proof {
            zoom_base.lemma_wf_pos();
            rot_cos.lemma_wf_pos();
            rot_sin.lemma_wf_pos();
            content_min.lemma_wf_model();
            content_max.lemma_wf_model();
        }
        let zero = Rat::zero();
        if zoom_base.le(zero) {
            return None;
        }
        if pixels_per_line <= 0 {
            return None;
        }
        if rot_sin.num() == i64::MIN {
            return None;
        }
        if rot_cos.is_zero() && rot_sin.is_zero() {
            return None;
        }
        if content_max.x().equiv(content_min.x()) || content_max.y().equiv(content_min.y()) {
            return None;
        }
        Some(
            EngineConfig { zoom_base, pixels_per_line, rot_cos, rot_sin, content_min, content_max },
        )
    }

    /// The standard configuration: zoom base `21/20` (that is, 1.05 per
    /// line), 20 pixels per line, and a rotation increment of one tenth of a
    /// turn, with cosine and sine approximated by `809/1000` and `588/1000`.
    /// Fails with `DegenerateRect` exactly when the content bounds rectangle
    /// has zero width or height.
    pub fn standard(content_min: Point, content_max: Point) -> (r: Result<
        EngineConfig,
        TransformError,
    >)
        requires
            content_min.wf(),
            content_max.wf(),
        ensures
            r matches Ok(cfg) <==> !crate::viewport::gt_degenerate(content_min@, content_max@),
            r matches Ok(cfg) ==> cfg.wf() && cfg@ == (ConfigModel {
                zoom_base: Frac { n: 21, d: 20 },
                pixels_per_line: 20,
                rot_cos: Frac { n: 809, d: 1000 },
                rot_sin: Frac { n: 588, d: 1000 },
                content_min: content_min@,
                content_max: content_max@,
            }),
            r matches Err(e) ==> e == TransformError::DegenerateRect,
    {
        proof {
            content_min.lemma_wf_model();
            content_max.lemma_wf_model();
        }
        let zoom_base = Rat::from_num_den(21, 20);
        let rot_cos = Rat::from_num_den(809, 1000);
        let rot_sin = Rat::from_num_den(588, 1000);
        match EngineConfig::new(zoom_base, 20, rot_cos, rot_sin, content_min, content_max) {
            Some(cfg) => Ok(cfg),
            None => Err(TransformError::DegenerateRect),
        }
    }

    /// The wheel zoom base.
    pub fn zoom_base(&self) -> (r: Rat)
        requires
            self.wf(),
        ensures
            r.wf(),
            r@ == self@.zoom_base,
    {
        self.zoom_base
    }

    /// The wheel pixels-per-line divisor.
    pub fn pixels_per_line(&self) -> (r: i64)
        requires
            self.wf(),
        ensures
            r as int == self@.pixels_per_line,
    {
        self.pixels_per_line
    }

    /// The cosine of the rotation increment.
    pub fn rot_cos(&self) -> (r: Rat)
        requires
            self.wf(),
        ensures
            r.wf(),
            r@ == self@.rot_cos,
    {
        self.rot_cos
    }

    /// The sine of the rotation increment.
    pub fn rot_sin(&self) -> (r: Rat)
        requires
            self.wf(),
        ensures
            r.wf(),
            r@ == self@.rot_sin,
    {
        self.rot_sin
    }

    /// The minimum corner of the logical content bounds.
    pub fn content_min(&self) -> (r: Point)
        requires
            self.wf(),
        ensures
            r.wf(),
            r@ == self@.content_min,
    {
        self.content_min
    }

    /// The maximum corner of the logical content bounds.
    pub fn content_max(&self) -> (r: Point)
        requires
            self.wf(),
        ensures
            r.wf(),
            r@ == self@.content_max,
    {
        self.content_max
    }
}

/// Model of the transform state.
pub struct StateModel {
    pub transform: AffineModel,
    pub anchor: Option<PointModel>,
    pub pointer_down: bool,
    pub viewport_width: int,
    pub viewport_height: int,
}

/// The state invariant over the model: the transform is well-formed and any
/// anchor is a well-formed point.
pub open spec fn state_model_wf(s: StateModel) -> bool {
    &&& affine_model_wf(s.transform)
    &&& model_in_i64(s.transform)
    &&& match s.anchor {
        Some(a) => point_model_wf(a) && point_in_i64(a),
        None => true,
    }
}

/// The mutable, session-long transform state.
#[derive(Clone, Copy, Debug)]
pub struct ViewState {
    transform: Affine,
    anchor: Option<Point>,
    pointer_down: bool,
    viewport_width: u32,
    viewport_height: u32,
}

impl View for ViewState {
    type V = StateModel;

    closed spec fn view(&self) -> StateModel {
        StateModel {
            transform: self.transform@,
            anchor: match self.anchor {
                Some(p) => Some(p@),
                None => None,
            },
            pointer_down: self.pointer_down,
            viewport_width: self.viewport_width as int,
            viewport_height: self.viewport_height as int,
        }
    }
}

/// The difference `position - anchor` as a point over one denominator.
pub open spec fn delta_model(position: PointModel, anchor: PointModel) -> PointModel {
    PointModel {
        x: frac_sub(point_frac_x(position), point_frac_x(anchor)).n * frac_sub(
            point_frac_y(position),
            point_frac_y(anchor),
        ).d,
        y: frac_sub(point_frac_y(position), point_frac_y(anchor)).n * frac_sub(
            point_frac_x(position),
            point_frac_x(anchor),
        ).d,
        den: frac_sub(point_frac_x(position), point_frac_x(anchor)).d * frac_sub(
            point_frac_y(position),
            point_frac_y(anchor),
        ).d,
    }
}

/// The exact panned transform: translate by the pointer delta, after the
/// current transform.
pub open spec fn pan_transform(
    t: AffineModel,
    anchor: PointModel,
    position: PointModel,
) -> AffineModel {
    affine_compose(translate_model(delta_model(position, anchor)), t)
}

/// Every component of the exact panned transform fits in `i64`.
pub open spec fn pan_fits(t: AffineModel, anchor: PointModel, position: PointModel) -> bool {
    &&& frac_in_i64(frac_sub(point_frac_x(position), point_frac_x(anchor)))
    &&& frac_in_i64(frac_sub(point_frac_y(position), point_frac_y(anchor)))
    &&& point_in_i64(delta_model(position, anchor))
    &&& model_in_i64(pan_transform(t, anchor, position))
}

/// A pointer move pans exactly when a drag is in progress (button down with
/// a known anchor) and the exact panned transform fits.
pub open spec fn move_applies(s: StateModel, position: PointModel) -> bool {
    match s.anchor {
        Some(a) => s.pointer_down && pan_fits(s.transform, a, position),
        None => false,
    }
}

/// The state after a pointer move: the transform pans when the move applies,
/// and the anchor becomes the new position in every case.
pub open spec fn move_step(s: StateModel, position: PointModel) -> StateModel {
    StateModel {
        transform: match s.anchor {
            Some(a) => if s.pointer_down && pan_fits(s.transform, a, position) {
                pan_transform(s.transform, a, position)
            } else {
                s.transform
            },
            None => s.transform,
        },
        anchor: Some(position),
        pointer_down: s.pointer_down,
        viewport_width: s.viewport_width,
        viewport_height: s.viewport_height,
    }
}

/// Every component of the exact pivot-relative composition fits in `i64`
/// (including the negated pivot and both partial compositions).
pub open spec fn pivot_fits(op: AffineModel, pivot: PointModel, cur: AffineModel) -> bool {
    &&& in_i64(-pivot.x)
    &&& in_i64(-pivot.y)
    &&& model_in_i64(affine_compose(translate_model(neg_point(pivot)), cur))
    &&& model_in_i64(
        affine_compose(op, affine_compose(translate_model(neg_point(pivot)), cur)),
    )
    &&& model_in_i64(pivoted_model(op, pivot, cur))
}

/// The exact zoom factor for a wheel movement of `steps` lines: the zoom
/// base raised to `steps`, with negative steps taken on the reciprocal.
pub open spec fn zoom_factor_model(base: Frac, steps: int) -> Frac {
    if steps >= 0 {
        frac_pow(base, steps as nat)
    } else {
        frac_pow(frac_inv(base), (-steps) as nat)
    }
}

/// Every partial product of the exact zoom factor fits in `i64`.
pub open spec fn zoom_factor_fits(base: Frac, steps: int) -> bool {
    if steps >= 0 {
        pow_fits(base, steps as nat)
    } else {
        pow_fits(frac_inv(base), (-steps) as nat)
    }
}

/// A wheel movement zooms exactly when an anchor is known and both the exact
/// zoom factor and the exact pivoted composition fit.
pub open spec fn zoom_applies(s: StateModel, cfg: ConfigModel, steps: int) -> bool {
    match s.anchor {
        Some(a) => zoom_factor_fits(cfg.zoom_base, steps) && pivot_fits(
            scale_uniform_model(zoom_factor_model(cfg.zoom_base, steps)),
            a,
            s.transform,
        ),
        None => false,
    }
}

/// The state after a wheel movement of `steps` lines.
pub open spec fn zoom_step(s: StateModel, cfg: ConfigModel, steps: int) -> StateModel {
    StateModel {
        transform: match s.anchor {
            Some(a) => if zoom_applies(s, cfg, steps) {
                pivoted_model(
                    scale_uniform_model(zoom_factor_model(cfg.zoom_base, steps)),
                    a,
                    s.transform,
                )
            } else {
                s.transform
            },
            None => s.transform,
        },
        anchor: s.anchor,
        pointer_down: s.pointer_down,
        viewport_width: s.viewport_width,
        viewport_height: s.viewport_height,
    }
}

/// How many whole zoom steps a pixel wheel delta makes: the delta divided by
/// the pixels-per-line divisor, rounded toward zero.
pub open spec fn wheel_steps(pixels: int, pixels_per_line: int) -> int {
    if pixels >= 0 {
        pixels / pixels_per_line
    } else {
        -((-pixels) / pixels_per_line)
    }
}

/// The rotation increment for a key: the configured cosine and sine, with
/// the sine negated for the clockwise direction.
pub open spec fn rotation_op(cfg: ConfigModel, key: Key) -> AffineModel {
    if key == Key::RotateClockwise {
        rotate_model(cfg.rot_cos, frac_neg(cfg.rot_sin))
    } else {
        rotate_model(cfg.rot_cos, cfg.rot_sin)
    }
}

/// A rotation key applies exactly when an anchor is known and both the exact
/// rotation increment and the exact pivoted composition fit.
pub open spec fn rotate_applies(s: StateModel, cfg: ConfigModel, key: Key) -> bool {
    match s.anchor {
        Some(a) => model_in_i64(rotation_op(cfg, key)) && pivot_fits(
            rotation_op(cfg, key),
            a,
            s.transform,
        ),
        None => false,
    }
}

/// The state after a key press.
pub open spec fn key_step(s: StateModel, cfg: ConfigModel, key: Key) -> StateModel {
    if key == Key::Reset {
        StateModel {
            transform: identity_model(),
            anchor: s.anchor,
            pointer_down: s.pointer_down,
            viewport_width: s.viewport_width,
            viewport_height: s.viewport_height,
        }
    } else {
        StateModel {
            transform: match s.anchor {
                Some(a) => if rotate_applies(s, cfg, key) {
                    pivoted_model(rotation_op(cfg, key), a, s.transform)
                } else {
                    s.transform
                },
                None => s.transform,
            },
            anchor: s.anchor,
            pointer_down: s.pointer_down,
            viewport_width: s.viewport_width,
            viewport_height: s.viewport_height,
        }
    }
}

/// The state after one input event.
pub open spec fn event_step(s: StateModel, cfg: ConfigModel, ev: EventModel) -> StateModel {
    match ev {
        EventModel::PointerDown => StateModel { pointer_down: true, ..s },
        EventModel::PointerUp => StateModel { pointer_down: false, ..s },
        EventModel::PointerMove(p) => move_step(s, p),
        EventModel::PointerLeave => StateModel { pointer_down: false, anchor: None, ..s },
        EventModel::WheelPixels(px) => zoom_step(s, cfg, wheel_steps(px, cfg.pixels_per_line)),
        EventModel::WheelLines(l) => zoom_step(s, cfg, l),
        EventModel::KeyPress(k) => key_step(s, cfg, k),
        EventModel::Resize(w, h) => StateModel { viewport_width: w, viewport_height: h, ..s },
    }
}

/// Whether one input event asks for a redraw: exactly when it changed the
/// transform or the viewport size.
pub open spec fn event_redraw(s: StateModel, cfg: ConfigModel, ev: EventModel) -> bool {
    match ev {
        EventModel::PointerDown => false,
        EventModel::PointerUp => false,
        EventModel::PointerMove(p) => move_applies(s, p),
        EventModel::PointerLeave => false,
        EventModel::WheelPixels(px) => zoom_applies(s, cfg, wheel_steps(px, cfg.pixels_per_line)),
        EventModel::WheelLines(l) => zoom_applies(s, cfg, l),
        EventModel::KeyPress(k) => k == Key::Reset || rotate_applies(s, cfg, k),
        EventModel::Resize(w, h) => true,
    }
}

/// The pivot-relative composition `translate(pivot) * op * translate(-pivot)
/// * current`. `None` exactly when a component of the exact result leaves
/// `i64`, and the state is then left for the caller to keep unchanged.
fn compose_about_pivot(op: &Affine, pivot: &Point, current: &Affine) -> (r: Option<Affine>)
    requires
        op.wf(),
        pivot.wf(),
        current.wf(),
    ensures
        r is Some <==> pivot_fits(op@, pivot@, current@),
        r matches Some(m) ==> m.wf() && m@ == pivoted_model(op@, pivot@, current@),
{
    let neg = match pivot.neg() {
        Some(v) => v,
        None => {
            return None;
        },
    };
    let back = Affine::translate(&neg);
    let inner = match back.compose(current) {
        Some(v) => v,
        None => {
            return None;
        },
    };
    let mid = match op.compose(&inner) {
        Some(v) => v,
        None => {
            return None;
        },
    };
    let forward = Affine::translate(pivot);
    forward.compose(&mid)
}

impl ViewState {
    /// The transform is well-formed and any anchor is a well-formed point.
    pub closed spec fn wf(self) -> bool {
        &&& self.transform.wf()
        &&& match self.anchor {
            Some(p) => p.wf(),
            None => true,
        }
    }

    /// A well-formed state has a well-formed model.
    pub proof fn lemma_wf_model(self)
        requires
            self.wf(),
        ensures
            state_model_wf(self@),
    {
        self.transform.lemma_wf_model();
        match self.anchor {
            Some(p) => p.lemma_wf_model(),
            None => (),
        }
    }

    /// The session-start state: the identity transform, no anchor, pointer
    /// up, and the given viewport size.
    pub fn new(viewport_width: u32, viewport_height: u32) -> (r: ViewState)
        ensures
            r.wf(),
            r@ == (StateModel {
                transform: identity_model(),
                anchor: None,
                pointer_down: false,
                viewport_width: viewport_width as int,
                viewport_height: viewport_height as int,
            }),
    {
        ViewState {
            transform: Affine::identity(),
            anchor: None,
            pointer_down: false,
            viewport_width,
            viewport_height,
        }
    }

    /// The current transform.
    pub fn transform(&self) -> (r: Affine)
        requires
            self.wf(),
        ensures
            r.wf(),
            r@ == self@.transform,
    {
        self.transform
    }

    /// The current drag anchor (the last known pointer position).
    pub fn anchor(&self) -> (r: Option<Point>)
        requires
            self.wf(),
        ensures
            r is Some <==> self@.anchor is Some,
            r matches Some(p) ==> p.wf() && self@.anchor == Some(p@),
    {
        self.anchor
    }

    /// Whether the pointer button is down.
    pub fn pointer_down(&self) -> (r: bool)
        ensures
            r == self@.pointer_down,
    {
        self.pointer_down
    }

    /// The current viewport width in device pixels.
    pub fn viewport_width(&self) -> (r: u32)
        ensures
            r as int == self@.viewport_width,
    {
        self.viewport_width
    }

    /// The current viewport height in device pixels.
    pub fn viewport_height(&self) -> (r: u32)
        ensures
            r as int == self@.viewport_height,
    {
        self.viewport_height
    }

    /// Routes one input event to the state mutation it calls for, and
    /// reports whether the mutation asks for a redraw.
    pub fn handle_event(&mut self, cfg: &EngineConfig, ev: InputEvent) -> (redraw: bool)
        requires
            old(self).wf(),
            cfg.wf(),
            ev matches InputEvent::PointerMove(p) ==> p.wf(),
        ensures
            final(self).wf(),
            final(self)@ == event_step(old(self)@, cfg@, ev@),
            redraw == event_redraw(old(self)@, cfg@, ev@),
    {
        match ev {
            InputEvent::PointerDown => {
                self.pointer_down = true;
                false
            },
            InputEvent::PointerUp => {
                self.pointer_down = false;
                false
            },
            InputEvent::PointerMove(position) => self.on_pointer_move(position),
            InputEvent::PointerLeave => {
                self.pointer_down = false;
                self.anchor = None;
                false
            },
            InputEvent::WheelPixels(pixels) => {
                let steps = pixel_steps(pixels, cfg.pixels_per_line());
                self.zoom_by_steps(cfg, steps)
            },
            InputEvent::WheelLines(lines) => self.zoom_by_steps(cfg, lines),
            InputEvent::KeyPress(key) => self.on_key(cfg, key),
            InputEvent::Resize(w, h) => {
                self.viewport_width = w;
                self.viewport_height = h;
                true
            },
        }
    }

    /// A pointer move: pans while dragging and always records the position
    /// as the new anchor.
    pub fn on_pointer_move(&mut self, position: Point) -> (redraw: bool)
        requires
            old(self).wf(),
            position.wf(),
        ensures
            final(self).wf(),
            final(self)@ == move_step(old(self)@, position@),
            redraw == move_applies(old(self)@, position@),
    {
        let mut applied = false;
        if self.pointer_down {
            let panned: Option<Affine> = match self.anchor {
                Some(anchor) => {
                    let dx = match position.x().sub(anchor.x()) {
                        Some(v) => Some(v),
                        None => None,
                    };
                    let dy = match position.y().sub(anchor.y()) {
                        Some(v) => Some(v),
                        None => None,
                    };
                    match (dx, dy) {
                        (Some(dx), Some(dy)) => match Point::new(dx, dy) {
                            Some(delta) => Affine::translate(&delta).compose(&self.transform),
                            None => None,
                        },
                        _ => None,
                    }
                },
                None => None,
            };
            match panned {
                Some(t) => {
                    self.transform = t;
                    applied = true;
                },
                None => (),
            }
        }
        self.anchor = Some(position);
        applied
    }

    /// A wheel movement of a whole number of zoom steps: scales about the
    /// anchor by the zoom base raised to `steps`.
    pub fn zoom_by_steps(&mut self, cfg: &EngineConfig, steps: i64) -> (redraw: bool)
        requires
            old(self).wf(),
            cfg.wf(),
        ensures
            final(self).wf(),
            final(self)@ == zoom_step(old(self)@, cfg@, steps as int),
            redraw == zoom_applies(old(self)@, cfg@, steps as int),
    {
        let anchor = match self.anchor {
            Some(a) => a,
            None => {
                return false;
            },
        };
        let factor = match cfg.zoom_base().pow(steps) {
            Some(v) => v,
            None => {
                return false;
            },
        };
        let op = Affine::scale_uniform(factor);
        match compose_about_pivot(&op, &anchor, &self.transform) {
            Some(t) => {
                self.transform = t;
                true
            },
            None => false,
        }
    }

    /// A key press: reset to the identity, or rotate by one increment about
    /// the anchor.
    pub fn on_key(&mut self, cfg: &EngineConfig, key: Key) -> (redraw: bool)
        requires
            old(self).wf(),
            cfg.wf(),
        ensures
            final(self).wf(),
            final(self)@ == key_step(old(self)@, cfg@, key),
            redraw == (key == Key::Reset || rotate_applies(old(self)@, cfg@, key)),
    {
        match key {
            Key::Reset => {
                self.transform = Affine::identity();
                true
            },
            _ => {
                let anchor = match self.anchor {
                    Some(a) => a,
                    None => {
                        return false;
                    },
                };
                let sin = if key == Key::RotateClockwise {
                    match cfg.rot_sin().neg() {
                        Some(v) => v,
                        None => {
                            proof {
                                assert(false);
                            }
                            return false;
                        },
                    }
                } else {
                    cfg.rot_sin()
                };
                let op = match Affine::rotate_cos_sin(cfg.rot_cos(), sin) {
                    Some(v) => v,
                    None => {
                        return false;
                    },
                };
                match compose_about_pivot(&op, &anchor, &self.transform) {
                    Some(t) => {
                        self.transform = t;
                        true
                    },
                    None => false,
                }
            },
        }
    }
}

/// How many whole zoom steps a pixel wheel delta makes, rounded toward zero.
fn pixel_steps(pixels: i64, pixels_per_line: i64) -> (r: i64)
    requires
        pixels_per_line > 0,
    ensures
        r as int == wheel_steps(pixels as int, pixels_per_line as int),
{
    if pixels >= 0 {
        pixels / pixels_per_line
    } else {
        let magnitude: i128 = -(pixels as i128);
        let quotient: i128 = magnitude / (pixels_per_line as i128);
        proof {
            vstd::arithmetic::div_mod::lemma_div_basics_5(magnitude as int, pixels_per_line as int);
        }
        (-quotient) as i64
    }
}

/// A zoom step keeps the transform invertible.
proof fn lemma_zoom_preserves_invertibility(s: StateModel, cfg: ConfigModel, steps: int)
    requires
        state_model_wf(s),
        config_model_wf(cfg),
        det_raw(s.transform) != 0,
    ensures
        det_raw(zoom_step(s, cfg, steps).transform) != 0,
{
    match s.anchor {
        Some(a) => {
            if zoom_applies(s, cfg, steps) {
                let f = zoom_factor_model(cfg.zoom_base, steps);
                if steps >= 0 {
                    lemma_pow_pos(cfg.zoom_base, steps as nat);
                } else {
                    lemma_pow_pos(frac_inv(cfg.zoom_base), (-steps) as nat);
                }
                lemma_mul_pos(f.n, f.n);
                lemma_pivoted_det(scale_uniform_model(f), a, s.transform);
            }
        },
        None => (),
    }
}

/// Reachable transforms stay invertible: every input event takes a state
/// whose transform has a non-zero determinant to a state whose transform
/// does too. Panning, zooming and rotating compose increments with non-zero
/// determinants, reset installs the identity, and an increment whose exact
/// value does not fit leaves the transform unchanged.
pub proof fn lemma_event_preserves_invertibility(s: StateModel, cfg: ConfigModel, ev: EventModel)
    requires
        state_model_wf(s),
        config_model_wf(cfg),
        det_raw(s.transform) != 0,
        ev matches EventModel::PointerMove(p) ==> point_model_wf(p),
    ensures
        det_raw(event_step(s, cfg, ev).transform) != 0,
{
    match ev {
        EventModel::PointerMove(p) => {
            match s.anchor {
                Some(a) => {
                    if s.pointer_down && pan_fits(s.transform, a, p) {
                        let d = delta_model(p, a);
                        lemma_mul_pos(p.den, a.den);
                        lemma_mul_pos(p.den * a.den, p.den * a.den);
                        lemma_mul_pos(d.den, d.den);
                        lemma_det_compose(translate_model(d), s.transform);
                        lemma_mul_nonzero(det_raw(translate_model(d)), det_raw(s.transform));
                    }
                },
                None => (),
            }
        },
        EventModel::WheelPixels(px) => {
            lemma_zoom_preserves_invertibility(s, cfg, wheel_steps(px, cfg.pixels_per_line));
        },
        EventModel::WheelLines(l) => {
            lemma_zoom_preserves_invertibility(s, cfg, l);
        },
        EventModel::KeyPress(k) => {
            if k != Key::Reset {
                match s.anchor {
                    Some(a) => {
                        if rotate_applies(s, cfg, k) {
                            let op = rotation_op(cfg, k);
                            let s2 = if k == Key::RotateClockwise {
                                frac_neg(cfg.rot_sin)
                            } else {
                                cfg.rot_sin
                            };
                            let x = cfg.rot_cos.n * s2.d;
                            let y = s2.n * cfg.rot_cos.d;
                            if cfg.rot_cos.n != 0 {
                                lemma_mul_nonzero(cfg.rot_cos.n, s2.d);
                            } else {
                                lemma_mul_nonzero(s2.n, cfg.rot_cos.d);
                            }
                            vstd::arithmetic::mul::lemma_mul_is_commutative(y, -y);
                            vstd::arithmetic::mul::lemma_mul_unary_negation(y, y);
                            assert(det_raw(op) == x * x + y * y);
                            assert(x * x + y * y != 0) by (nonlinear_arith)
                                requires
                                    x != 0 || y != 0,
                            ;
                            lemma_pivoted_det(op, a, s.transform);
                        }
                    },
                    None => (),
                }
            }
        },
        _ => (),
    }
}

/// Reset always returns the transform to the identity, whatever the prior
/// state, including mid-drag.
pub proof fn lemma_reset_returns_identity(s: StateModel, cfg: ConfigModel)
    ensures
        event_step(s, cfg, EventModel::KeyPress(Key::Reset)).transform == identity_model(),
        event_step(s, cfg, EventModel::KeyPress(Key::Reset)).anchor == s.anchor,
        event_step(s, cfg, EventModel::KeyPress(Key::Reset)).pointer_down == s.pointer_down,
{
}

/// Cursor leave clears the anchor, so a pointer move right after it (without
/// a new pointer down) changes no transform and asks for no redraw.
pub proof fn lemma_leave_then_move_is_inert(s: StateModel, cfg: ConfigModel, position: PointModel)
    ensures
        event_step(s, cfg, EventModel::PointerLeave).anchor is None,
        !event_step(s, cfg, EventModel::PointerLeave).pointer_down,
        event_step(
            event_step(s, cfg, EventModel::PointerLeave),
            cfg,
            EventModel::PointerMove(position),
        ).transform == s.transform,
        !event_redraw(
            event_step(s, cfg, EventModel::PointerLeave),
            cfg,
            EventModel::PointerMove(position),
        ),
{
}

} // verus!
