use remagnify::config::{
    parse_size, validate_scale, Cli, Config, LogLevel, MoveType, SizeError, RATIO_ONE,
};
use remagnify::vector::Vector2D;

const PX: i64 = 256;

fn cli() -> Cli {
    Cli {
        move_type: MoveType::Cursor,
        size: None,
        render_inactive: false,
        continuous: true,
        zoom_speed: 50_000,
        exit_delay: 200,
        quiet: false,
        verbose: false,
        show_cursor: false,
        scale: None,
    }
}

#[test]
fn test_parse_size() {
    assert_eq!(parse_size("300x150").unwrap(), Vector2D::new(300 * PX, 150 * PX));
    assert_eq!(parse_size("1920x1080").unwrap(), Vector2D::new(1920 * PX, 1080 * PX));
    assert!(parse_size("invalid").is_err());
    assert!(parse_size("300").is_err());
    assert!(parse_size("-300x150").is_err());
}

#[test]
fn parse_size_errors_name_the_cause() {
    assert_eq!(parse_size("300"), Err(SizeError::Format));
    assert_eq!(parse_size("3x4x5"), Err(SizeError::Format));
    assert_eq!(parse_size("invalid"), Err(SizeError::Format));
    assert_eq!(parse_size("abcx150"), Err(SizeError::Width));
    assert_eq!(parse_size("x150"), Err(SizeError::Width));
    assert_eq!(parse_size("300x"), Err(SizeError::Height));
    assert_eq!(parse_size("300x1a"), Err(SizeError::Height));
    assert_eq!(parse_size("-300x150"), Err(SizeError::NotPositive));
    assert_eq!(parse_size("300x0"), Err(SizeError::NotPositive));
    assert_eq!(parse_size("99999999999x150"), Err(SizeError::Width));
}

#[test]
fn parse_size_accepts_signs_and_largest_value() {
    assert_eq!(parse_size("+300x150").unwrap(), Vector2D::new(300 * PX, 150 * PX));
    assert_eq!(parse_size("1x1").unwrap(), Vector2D::new(PX, PX));
    assert_eq!(
        parse_size("2147483647x7").unwrap(),
        Vector2D::new(2147483647 * PX, 7 * PX)
    );
}

#[test]
fn parse_size_keeps_fractions_to_a_sub_pixel_step() {
    assert_eq!(parse_size("300.5x150").unwrap(), Vector2D::new(300 * PX + 128, 150 * PX));
    // 1.3 px is 332.8 steps, rounded down; .5 px is 128 steps.
    assert_eq!(parse_size("1.3x.5").unwrap(), Vector2D::new(332, 128));
    assert_eq!(parse_size("1.x2.0").unwrap(), Vector2D::new(PX, 2 * PX));
    assert_eq!(parse_size(".x5"), Err(SizeError::Width));
    assert_eq!(parse_size("1.2.3x4"), Err(SizeError::Width));
    assert_eq!(parse_size("4x1,5"), Err(SizeError::Height));
    assert_eq!(parse_size("0.001x5"), Err(SizeError::NotPositive));
    assert_eq!(parse_size("-0.5x1"), Err(SizeError::NotPositive));
    assert_eq!(parse_size("NaNx5"), Err(SizeError::Width));
}

#[test]
fn test_config_from_cli() {
    let c = Cli {
        move_type: MoveType::Corner,
        size: Some(Vector2D::new(400 * PX, 200 * PX)),
        render_inactive: true,
        continuous: false,
        zoom_speed: 100_000,
        exit_delay: 500,
        quiet: false,
        verbose: false,
        show_cursor: false,
        scale: None,
    };

    let config = Config::from_cli(c);
    assert_eq!(config.size.x, 400 * PX);
    assert_eq!(config.size.y, 200 * PX);
    assert_eq!(config.zoom_speed, 100_000);
    assert_eq!(config.exit_delay_ms, 500);
    assert_eq!(config.hide_cursor, true);
    assert_eq!(config.scale, None);
    assert_eq!(config.move_type, MoveType::Corner);
    assert!(config.render_inactive);
    assert!(!config.continuous_capture);
}

#[test]
fn test_config_zoom_speed_clamping() {
    let config = Config::from_cli(Cli { zoom_speed: -500_000, ..cli() });
    assert!(config.zoom_speed >= 1_000);
    assert_eq!(config.zoom_speed, 1_000);

    let config = Config::from_cli(Cli { zoom_speed: 5 * RATIO_ONE, ..cli() });
    assert!(config.zoom_speed <= RATIO_ONE);
    assert_eq!(config.zoom_speed, RATIO_ONE);
}

#[test]
fn test_config_exit_delay_clamping() {
    let config = Config::from_cli(Cli { exit_delay: 10000, ..cli() });
    assert!(config.exit_delay_ms <= 5000);
    assert_eq!(config.exit_delay_ms, 5000);
}

#[test]
fn test_cursor_hiding_config() {
    let config = Config::from_cli(cli());
    assert_eq!(config.hide_cursor, true);

    let config = Config::from_cli(Cli { show_cursor: true, ..cli() });
    assert_eq!(config.hide_cursor, false);
}

#[test]
fn test_scale_validation() {
    let config = Config::from_cli(Cli { scale: Some(1_500_000), ..cli() });
    assert_eq!(config.scale, Some(1_500_000));

    let config = Config::from_cli(Cli { scale: Some(15 * RATIO_ONE), ..cli() });
    assert_eq!(config.scale, Some(10 * RATIO_ONE));

    let config = Config::from_cli(Cli { scale: Some(-1_500_000), ..cli() });
    assert_eq!(config.scale, None);
}

#[test]
fn scale_validation_boundaries() {
    assert_eq!(validate_scale(Some(0)), None);
    assert_eq!(validate_scale(Some(1)), Some(1));
    assert_eq!(validate_scale(Some(10 * RATIO_ONE)), Some(10 * RATIO_ONE));
    assert_eq!(validate_scale(Some(10 * RATIO_ONE + 1)), Some(10 * RATIO_ONE));
    assert_eq!(validate_scale(None), None);
}

#[test]
fn missing_size_takes_default() {
    let config = Config::from_cli(cli());
    assert_eq!(config.size, Vector2D::new(300 * PX, 150 * PX));
    let d = Config::default();
    assert_eq!(d.size, Vector2D::new(300 * PX, 150 * PX));
    assert_eq!(d.zoom_speed, 50_000);
    assert_eq!(d.exit_delay_ms, 200);
    assert!(d.hide_cursor);
    assert_eq!(d.move_type, MoveType::Cursor);
    assert_eq!(MoveType::default(), MoveType::Cursor);
}

#[test]
fn log_level_prefers_quiet() {
    let config = Config::default();
    assert_eq!(config.log_level(&Cli { quiet: true, verbose: true, ..cli() }), LogLevel::Error);
    assert_eq!(config.log_level(&Cli { verbose: true, ..cli() }), LogLevel::Trace);
    assert_eq!(config.log_level(&cli()), LogLevel::Info);
}

#[test]
fn validated_config_is_valid() {
    assert!(Config::default().is_valid());
    assert!(Config::from_cli(Cli { zoom_speed: 0, exit_delay: 9999, ..cli() }).is_valid());
    let mut c = Config::default();
    c.size = Vector2D::new(-1, 5);
    assert!(!c.is_valid());
}
