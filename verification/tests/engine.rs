use viewport_engine::affine::{Affine, Point};
use viewport_engine::error::TransformError;
use viewport_engine::rational::Rat;
use viewport_engine::snapshot::{direct_snapshot, mapped_snapshot};
use viewport_engine::state::{EngineConfig, InputEvent, Key, ViewState};

fn rat(n: i64, d: i64) -> Rat {
    Rat::new(n, d).unwrap()
}

fn point(x: i64, y: i64) -> Point {
    Point::from_ints(x, y)
}

fn standard_config() -> EngineConfig {
    EngineConfig::standard(point(-2, -1), point(1, 1)).unwrap()
}

#[test]
fn config_rejects_degenerate_bounds() {
    assert_eq!(
        EngineConfig::standard(point(3, 0), point(3, 5)).unwrap_err(),
        TransformError::DegenerateRect
    );
    assert_eq!(
        EngineConfig::standard(point(0, 2), point(5, 2)).unwrap_err(),
        TransformError::DegenerateRect
    );
}

#[test]
fn sequential_pan_moves_origin_by_the_deltas() {
    let cfg = standard_config();
    let mut state = ViewState::new(800, 600);
    state.handle_event(&cfg, InputEvent::PointerMove(point(10, 10)));
    state.handle_event(&cfg, InputEvent::PointerDown);
    let redraw = state.handle_event(&cfg, InputEvent::PointerMove(point(15, 12)));
    assert!(redraw);
    let image = state.transform().apply_to_point(&point(0, 0)).unwrap();
    assert!(image.equiv(&point(5, 2)));
}

#[test]
fn move_without_button_down_does_not_pan() {
    let cfg = standard_config();
    let mut state = ViewState::new(800, 600);
    state.handle_event(&cfg, InputEvent::PointerMove(point(10, 10)));
    let redraw = state.handle_event(&cfg, InputEvent::PointerMove(point(50, 50)));
    assert!(!redraw);
    assert!(state.transform().equiv(&Affine::identity()));
}

#[test]
fn wheel_zoom_keeps_the_pivot_fixed() {
    let cfg = standard_config();
    let mut state = ViewState::new(800, 600);
    state.handle_event(&cfg, InputEvent::PointerMove(point(10, 10)));
    let redraw = state.handle_event(&cfg, InputEvent::WheelLines(3));
    assert!(redraw);
    let pivot = point(10, 10);
    let image = state.transform().apply_to_point(&pivot).unwrap();
    assert!(image.equiv(&pivot));
}

#[test]
fn wheel_zoom_scales_about_the_pivot() {
    let cfg = standard_config();
    let mut state = ViewState::new(800, 600);
    state.handle_event(&cfg, InputEvent::PointerMove(point(0, 0)));
    // 40 pixels at 20 pixels per line is two zoom steps: 1.05^2 = 441/400.
    let redraw = state.handle_event(&cfg, InputEvent::WheelPixels(40));
    assert!(redraw);
    let image = state.transform().apply_to_point(&point(400, 0)).unwrap();
    assert!(image.equiv(&point(441, 0)));
}

#[test]
fn wheel_zoom_out_uses_the_reciprocal() {
    let cfg = standard_config();
    let mut state = ViewState::new(800, 600);
    state.handle_event(&cfg, InputEvent::PointerMove(point(0, 0)));
    state.handle_event(&cfg, InputEvent::WheelLines(-1));
    let image = state.transform().apply_to_point(&point(21, 0)).unwrap();
    assert!(image.equiv(&point(20, 0)));
}

#[test]
fn wheel_without_known_pointer_position_is_ignored() {
    let cfg = standard_config();
    let mut state = ViewState::new(800, 600);
    let redraw = state.handle_event(&cfg, InputEvent::WheelLines(5));
    assert!(!redraw);
    assert!(state.transform().equiv(&Affine::identity()));
}

#[test]
fn rotation_keeps_the_pivot_fixed() {
    let cfg = standard_config();
    let mut state = ViewState::new(800, 600);
    state.handle_event(&cfg, InputEvent::PointerMove(point(7, -3)));
    let redraw = state.handle_event(&cfg, InputEvent::KeyPress(Key::RotateCounterclockwise));
    assert!(redraw);
    let pivot = point(7, -3);
    let image = state.transform().apply_to_point(&pivot).unwrap();
    assert!(image.equiv(&pivot));
}

#[test]
fn opposite_rotations_compose_to_a_pure_scale() {
    let cfg = standard_config();
    let mut state = ViewState::new(800, 600);
    state.handle_event(&cfg, InputEvent::PointerMove(point(7, -3)));
    state.handle_event(&cfg, InputEvent::KeyPress(Key::RotateCounterclockwise));
    state.handle_event(&cfg, InputEvent::KeyPress(Key::RotateClockwise));
    // the rotation increment's cosine 809/1000 and sine 588/1000 are not
    // unit-length, so a turn one way then the other is not the identity but
    // the exact uniform scale by cos^2 + sin^2 = 1000225/1000000 about the
    // pivot: the pivot stays fixed and offsets from it scale by that factor.
    let pivot = point(7, -3);
    let image = state.transform().apply_to_point(&pivot).unwrap();
    assert!(image.equiv(&pivot));
    let offset = point(1000007, -3);
    let image = state.transform().apply_to_point(&offset).unwrap();
    assert!(image.equiv(&point(1000232, -3)));
}

#[test]
fn reset_returns_to_identity_mid_drag() {
    let cfg = standard_config();
    let mut state = ViewState::new(800, 600);
    state.handle_event(&cfg, InputEvent::PointerMove(point(10, 10)));
    state.handle_event(&cfg, InputEvent::PointerDown);
    state.handle_event(&cfg, InputEvent::PointerMove(point(40, 25)));
    state.handle_event(&cfg, InputEvent::WheelLines(2));
    let redraw = state.handle_event(&cfg, InputEvent::KeyPress(Key::Reset));
    assert!(redraw);
    assert!(state.transform().equiv(&Affine::identity()));
    // still dragging: the button state and anchor are untouched by reset
    assert!(state.pointer_down());
    assert!(state.anchor().is_some());
}

#[test]
fn cursor_leave_clears_the_anchor() {
    let cfg = standard_config();
    let mut state = ViewState::new(800, 600);
    state.handle_event(&cfg, InputEvent::PointerMove(point(10, 10)));
    state.handle_event(&cfg, InputEvent::PointerDown);
    state.handle_event(&cfg, InputEvent::PointerLeave);
    assert!(state.anchor().is_none());
    assert!(!state.pointer_down());
    // a move right after re-entry must not produce a jump transform
    let redraw = state.handle_event(&cfg, InputEvent::PointerMove(point(500, 500)));
    assert!(!redraw);
    assert!(state.transform().equiv(&Affine::identity()));
}

#[test]
fn pointer_up_stops_panning() {
    let cfg = standard_config();
    let mut state = ViewState::new(800, 600);
    state.handle_event(&cfg, InputEvent::PointerMove(point(0, 0)));
    state.handle_event(&cfg, InputEvent::PointerDown);
    state.handle_event(&cfg, InputEvent::PointerMove(point(5, 5)));
    state.handle_event(&cfg, InputEvent::PointerUp);
    let redraw = state.handle_event(&cfg, InputEvent::PointerMove(point(100, 100)));
    assert!(!redraw);
    let image = state.transform().apply_to_point(&point(0, 0)).unwrap();
    assert!(image.equiv(&point(5, 5)));
}

#[test]
fn resize_updates_the_viewport_and_redraws() {
    let cfg = standard_config();
    let mut state = ViewState::new(800, 600);
    let redraw = state.handle_event(&cfg, InputEvent::Resize(1024, 768));
    assert!(redraw);
    assert_eq!(state.viewport_width(), 1024);
    assert_eq!(state.viewport_height(), 768);
}

#[test]
fn direct_snapshot_packs_the_raw_transform() {
    let cfg = standard_config();
    let mut state = ViewState::new(800, 600);
    state.handle_event(&cfg, InputEvent::PointerMove(point(0, 0)));
    state.handle_event(&cfg, InputEvent::PointerDown);
    state.handle_event(&cfg, InputEvent::PointerMove(point(5, 2)));
    let snap = direct_snapshot(&state);
    assert_eq!(snap.viewport_width, 800);
    assert_eq!(snap.viewport_height, 600);
    assert!(snap.transform.equiv(&state.transform()));
    assert!(snap.transform.e().equiv(rat(5, 1)));
    assert!(snap.transform.f().equiv(rat(2, 1)));
}

#[test]
fn mapped_snapshot_maps_device_pixels_into_content() {
    let cfg = standard_config();
    let state = ViewState::new(800, 600);
    let snap = mapped_snapshot(&state, &cfg);
    // at the identity transform the device origin lands on the content
    // minimum, aspect-corrected: viewport 4:3 versus content 3:2 leaves x
    // unscaled and expands y by 9/8.
    let origin_image = snap.transform.apply_to_point(&point(0, 0)).unwrap();
    let expected = Point::new(rat(-2, 1), rat(-9, 8)).unwrap();
    assert!(origin_image.equiv(&expected));
}

#[test]
fn mapped_snapshot_inverts_a_pan() {
    let cfg = standard_config();
    let mut state = ViewState::new(800, 600);
    state.handle_event(&cfg, InputEvent::PointerMove(point(0, 0)));
    state.handle_event(&cfg, InputEvent::PointerDown);
    state.handle_event(&cfg, InputEvent::PointerMove(point(80, 0)));
    let snap = mapped_snapshot(&state, &cfg);
    // panning the content right by 80 device pixels means the device pixel
    // at x = 80 now shows what the origin showed before the pan.
    let image = snap.transform.apply_to_point(&point(80, 0)).unwrap();
    let expected = Point::new(rat(-2, 1), rat(-9, 8)).unwrap();
    assert!(image.equiv(&expected));
}
