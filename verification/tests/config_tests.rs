use webpage_to_app::config::{ConfigError, WindowConfig, DEFAULT_HEIGHT, DEFAULT_WIDTH};

#[test]
fn defaults_apply_when_unspecified() {
    let c = WindowConfig::new(String::from("https://example.org"), None, None).unwrap();
    assert_eq!(c.url, "https://example.org");
    assert_eq!(c.width, 800);
    assert_eq!(c.height, 600);
    assert_eq!(c.width, DEFAULT_WIDTH);
    assert_eq!(c.height, DEFAULT_HEIGHT);
}

#[test]
fn explicit_dimensions_are_kept() {
    let c = WindowConfig::new(String::from("https://example.com"), Some(1024), Some(768)).unwrap();
    assert_eq!(c.url, "https://example.com");
    assert_eq!(c.width, 1024);
    assert_eq!(c.height, 768);
}

#[test]
fn partial_dimensions_mix_with_defaults() {
    let c = WindowConfig::new(String::from("https://example.com"), Some(320), None).unwrap();
    assert_eq!(c.width, 320);
    assert_eq!(c.height, 600);
    let c = WindowConfig::new(String::from("https://example.com"), None, Some(240)).unwrap();
    assert_eq!(c.width, 800);
    assert_eq!(c.height, 240);
}

#[test]
fn zero_width_is_rejected() {
    let r = WindowConfig::new(String::from("https://example.com"), Some(0), Some(600));
    assert_eq!(r.unwrap_err(), ConfigError::NonPositiveWidth);
}

#[test]
fn negative_width_is_rejected() {
    let r = WindowConfig::new(String::from("https://example.com"), Some(-5), None);
    assert_eq!(r.unwrap_err(), ConfigError::NonPositiveWidth);
}

#[test]
fn non_positive_height_is_rejected() {
    let r = WindowConfig::new(String::from("https://example.com"), Some(800), Some(0));
    assert_eq!(r.unwrap_err(), ConfigError::NonPositiveHeight);
    let r = WindowConfig::new(String::from("https://example.com"), None, Some(-600));
    assert_eq!(r.unwrap_err(), ConfigError::NonPositiveHeight);
}

#[test]
fn width_error_reported_before_height_error() {
    let r = WindowConfig::new(String::from("https://example.com"), Some(0), Some(0));
    assert_eq!(r.unwrap_err(), ConfigError::NonPositiveWidth);
}
