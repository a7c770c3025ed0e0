use frame_handoff::config::Config;
use frame_handoff::config::ConfigError;
use frame_handoff::config::SinkFormat;

#[test]
fn valid_settings_are_kept() {
    let config = Config::new(100, 50, 4, 30, 5).unwrap();
    assert_eq!(config.width(), 100);
    assert_eq!(config.height(), 50);
    assert_eq!(config.channels(), 4);
    assert_eq!(config.frame_rate(), 30);
    assert_eq!(config.depth(), 5);
    assert_eq!(config.frame_len(), 20_000);
}

#[test]
fn zero_depth_is_refused() {
    assert_eq!(Config::new(100, 50, 4, 30, 0), Err(ConfigError::ZeroDepth));
}

#[test]
fn empty_frame_is_refused() {
    assert_eq!(Config::new(0, 50, 4, 30, 5), Err(ConfigError::EmptyFrame));
    assert_eq!(Config::new(100, 0, 4, 30, 5), Err(ConfigError::EmptyFrame));
}

#[test]
fn no_channels_is_refused() {
    assert_eq!(Config::new(100, 50, 0, 30, 5), Err(ConfigError::NoChannels));
}

#[test]
fn zero_frame_rate_is_refused() {
    assert_eq!(Config::new(100, 50, 4, 0, 5), Err(ConfigError::ZeroFrameRate));
}

#[test]
fn oversized_frame_is_refused() {
    assert_eq!(Config::new(usize::MAX, 2, 1, 30, 5), Err(ConfigError::FrameTooLarge));
    assert_eq!(Config::new(usize::MAX, 1, 2, 30, 5), Err(ConfigError::FrameTooLarge));
    assert_eq!(Config::new(usize::MAX, 1, 1, 30, 1).unwrap().frame_len(), usize::MAX);
}

#[test]
fn faults_are_reported_in_order() {
    assert_eq!(Config::new(0, 0, 0, 0, 0), Err(ConfigError::ZeroDepth));
    assert_eq!(Config::new(0, 0, 0, 0, 1), Err(ConfigError::EmptyFrame));
    assert_eq!(Config::new(1, 1, 0, 0, 1), Err(ConfigError::NoChannels));
    assert_eq!(Config::new(1, 1, 1, 0, 1), Err(ConfigError::ZeroFrameRate));
}

#[test]
fn frame_must_fit_the_surface() {
    let config = Config::new(1366, 600, 4, 60, 5).unwrap();
    assert_eq!(config.check_surface(1366, 600), Ok(()));
    assert_eq!(config.check_surface(1920, 1080), Ok(()));
    assert_eq!(config.check_surface(1365, 600), Err(ConfigError::ExceedsSurface));
    assert_eq!(config.check_surface(1366, 599), Err(ConfigError::ExceedsSurface));
}

#[test]
fn sink_must_expect_the_same_layout() {
    let config = Config::new(100, 50, 4, 30, 5).unwrap();
    let same = SinkFormat { width: 100, height: 50, bytes_per_pixel: 4 };
    assert_eq!(config.check_sink(same), Ok(()));
    let narrow = SinkFormat { width: 100, height: 50, bytes_per_pixel: 3 };
    assert_eq!(config.check_sink(narrow), Err(ConfigError::FormatMismatch));
    let wide = SinkFormat { width: 101, height: 50, bytes_per_pixel: 4 };
    assert_eq!(config.check_sink(wide), Err(ConfigError::DimensionMismatch));
    let tall = SinkFormat { width: 100, height: 51, bytes_per_pixel: 4 };
    assert_eq!(config.check_sink(tall), Err(ConfigError::DimensionMismatch));
    let both = SinkFormat { width: 1, height: 1, bytes_per_pixel: 1 };
    assert_eq!(config.check_sink(both), Err(ConfigError::FormatMismatch));
}
