use remagnify::config::RATIO_ONE;
use remagnify::monitor::Monitor;
use remagnify::vector::Vector2D;

const PX: i64 = 256;

fn logical(width: i32, height: i32, scale: i64) -> Vector2D {
    let mut m = Monitor::new(0);
    m.set_mode(width, height, 60000);
    m.set_fractional_scale(scale);
    m.get_logical_size()
}

#[test]
fn test_get_logical_size_fractional_scale() {
    let size = logical(1920, 1200, 1_500_000);
    assert!((size.x as f64 / PX as f64 - 1280.0).abs() < 0.01);
    assert!((size.y as f64 / PX as f64 - 800.0).abs() < 0.01);
    assert_eq!(size, Vector2D::new(1280 * PX, 800 * PX));
}

#[test]
fn test_get_logical_size_integer_scale() {
    let mut m = Monitor::new(0);
    m.set_mode(1920, 1080, 60000);
    m.set_scale(2);
    let size = m.get_logical_size();
    assert_eq!(size.x, 960 * PX);
    assert_eq!(size.y, 540 * PX);
}

#[test]
fn test_get_logical_size_no_scale() {
    let mut m = Monitor::new(0);
    m.set_mode(1920, 1080, 60000);
    let size = m.get_logical_size();
    assert_eq!(size.x, 1920 * PX);
    assert_eq!(size.y, 1080 * PX);
}

#[test]
fn test_fractional_scale_calculations() {
    let test_cases = vec![
        (1920, 1200, 1_250_000, 1536.0, 960.0),
        (2560, 1440, 1_500_000, 1706.67, 960.0),
        (3840, 2160, 2_000_000, 1920.0, 1080.0),
    ];

    for (width, height, scale, expected_w, expected_h) in test_cases {
        let size = logical(width, height, scale);
        let logical_w = size.x as f64 / PX as f64;
        let logical_h = size.y as f64 / PX as f64;
        assert!(
            (logical_w - expected_w).abs() < 1.0,
            "Width mismatch for {}x{} at {}x scale",
            width,
            height,
            scale
        );
        assert!(
            (logical_h - expected_h).abs() < 1.0,
            "Height mismatch for {}x{} at {}x scale",
            width,
            height,
            scale
        );
    }
}

#[test]
fn logical_size_at_double_scale() {
    assert_eq!(logical(3840, 2160, 2 * RATIO_ONE), Vector2D::new(1920 * PX, 1080 * PX));
    // 2560 / 1.5 = 1706.666..., rounded down to a sub-pixel step.
    assert_eq!(logical(2560, 1440, 1_500_000).x, 436906);
}

#[test]
fn monitor_accumulates_properties() {
    let mut m = Monitor::new(7);
    assert!(!m.ready);
    assert_eq!(m.wayland_name, 7);
    assert_eq!(m.fractional_scale, RATIO_ONE);
    m.set_geometry(-1920, 0, 600, 340);
    assert_eq!(m.size, Vector2D::new(0, 0));
    m.set_name(String::from("DP-1"));
    m.set_scale(3);
    assert_eq!(m.fractional_scale, 3 * RATIO_ONE);
    m.set_done();
    assert!(m.ready);
    assert_eq!(m.name, "DP-1");
    assert_eq!(m.scale, 3);
}

#[test]
fn scale_override_survives_integer_scale() {
    let mut m = Monitor::new(0);
    m.set_mode(1920, 1200, 60000);
    m.set_fractional_scale(1_500_000);
    m.set_scale(1);
    assert_eq!(m.scale, 1);
    assert_eq!(m.scale_override, Some(1_500_000));
    assert_eq!(m.get_logical_size(), Vector2D::new(1280 * PX, 800 * PX));
}
