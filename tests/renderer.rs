use remagnify::config::RATIO_ONE;
use remagnify::renderer::{mapping_fits, Rect, Renderer, ZOOM_MIN};
use remagnify::vector::Vector2D;

const PX: i64 = 256;

#[test]
fn test_renderer_default_zoom() {
    let renderer = Renderer::new();
    assert_eq!(renderer.zoom, 500_000);
    assert_eq!(Renderer::default().zoom, 500_000);
}

#[test]
fn test_set_zoom_clamping() {
    let mut renderer = Renderer::new();

    renderer.set_zoom(750_000);
    assert_eq!(renderer.zoom, 750_000);

    renderer.set_zoom(-500_000);
    assert_eq!(renderer.zoom, 10_000);

    renderer.set_zoom(5 * RATIO_ONE);
    assert_eq!(renderer.zoom, RATIO_ONE);

    renderer.set_zoom(10_000);
    assert_eq!(renderer.zoom, 10_000);

    renderer.set_zoom(RATIO_ONE);
    assert_eq!(renderer.zoom, RATIO_ONE);
}

#[test]
fn test_adjust_zoom_clamping() {
    let mut renderer = Renderer::new();
    assert_eq!(renderer.zoom, 500_000);

    renderer.adjust_zoom(200_000);
    assert_eq!(renderer.zoom, 700_000);

    renderer.adjust_zoom(-300_000);
    assert_eq!(renderer.zoom, 400_000);

    renderer.adjust_zoom(RATIO_ONE);
    assert_eq!(renderer.zoom, RATIO_ONE);

    renderer.adjust_zoom(-2 * RATIO_ONE);
    assert_eq!(renderer.zoom, ZOOM_MIN);
}

#[test]
fn zoom_stays_in_range_under_extreme_deltas() {
    let mut renderer = Renderer::new();
    for delta in [i64::MAX, i64::MIN, 1, -1, 123_456_789, -987_654_321] {
        renderer.adjust_zoom(delta);
        assert!(renderer.zoom >= ZOOM_MIN && renderer.zoom <= RATIO_ONE);
        renderer.adjust_zoom(delta);
        assert!(renderer.zoom >= ZOOM_MIN && renderer.zoom <= RATIO_ONE);
    }
    renderer.set_zoom(i64::MIN);
    assert_eq!(renderer.zoom, ZOOM_MIN);
    renderer.set_zoom(i64::MAX);
    assert_eq!(renderer.zoom, RATIO_ONE);
}

#[test]
fn active_frame_plan() {
    let renderer = Renderer::new();
    // Pointer at (100.5, 200.25) px, frame of 300x150 px.
    let position = Vector2D::new(100 * PX + 128, 200 * PX + 64);
    let size = Vector2D::new(300 * PX, 150 * PX);
    // A 1920x1080 overlay over a 3840x2160 capture.
    let output = Vector2D::new(1920 * PX, 1080 * PX);
    let capture = Vector2D::new(3840 * PX, 2160 * PX);
    let plan = renderer.render_surface(position, size, output, capture, false, false);
    assert!(plan.background);
    assert_eq!(plan.capture_scale, Vector2D::new(2 * PX, 2 * PX));
    let m = plan.magnifier.unwrap();
    assert_eq!(m.anchor, Vector2D::new(100 * PX, 200 * PX));
    assert_eq!(m.capture_anchor, Vector2D::new(200 * PX, 400 * PX));
    assert_eq!(m.zoom, 500_000);
    let bounds = Rect { origin: Vector2D::new(-50 * PX, 125 * PX), size };
    assert_eq!(m.clip, bounds);
    assert_eq!(m.outline, bounds);
    assert_eq!(renderer.draw_outline(position, size), bounds);
}

#[test]
fn capture_point_rounds_down() {
    let renderer = Renderer::new();
    let position = Vector2D::new(10 * PX, 7 * PX);
    let size = Vector2D::new(4 * PX, 4 * PX);
    // Capture 2/3 the size of the output.
    let output = Vector2D::new(3 * PX, 3 * PX);
    let capture = Vector2D::new(2 * PX, 2 * PX);
    let m = renderer.render_magnified_region(position, size, output, capture);
    // 10 * 2/3 px = 1706.67 steps, 7 * 2/3 px = 1194.67 steps.
    assert_eq!(m.capture_anchor, Vector2D::new(1706, 1194));
    let plan = renderer.render_surface(position, size, output, capture, true, true);
    assert_eq!(plan.capture_scale, Vector2D::new(170, 170));
}

#[test]
fn inactive_frame_plans() {
    let renderer = Renderer::new();
    let position = Vector2D::new(10 * PX, 10 * PX);
    let size = Vector2D::new(30 * PX, 20 * PX);
    let out = Vector2D::new(64 * PX, 64 * PX);
    let plan = renderer.render_surface(position, size, out, out, true, false);
    assert!(!plan.background);
    assert!(plan.magnifier.is_none());
    let plan = renderer.render_surface(position, size, out, out, true, true);
    assert!(plan.background);
    assert!(plan.magnifier.is_none());
    assert_eq!(plan.capture_scale, Vector2D::new(PX, PX));
}

#[test]
fn mapping_range() {
    let out = Vector2D::new(64 * PX, 64 * PX);
    assert!(mapping_fits(Vector2D::new(5, 5), out, out));
    assert!(!mapping_fits(Vector2D::new(5, 5), Vector2D::new(0, PX), out));
    assert!(!mapping_fits(Vector2D::new(i64::MAX, 5), Vector2D::new(1, 1), out));
}
