use restless::error::RestlessError;
use restless::terminal::utils;
use restless::terminal::{validate_size, TerminalConfig, MIN_HEIGHT, MIN_WIDTH};

#[test]
fn test_terminal_config_default() {
    let config = TerminalConfig::default();
    assert_eq!(config.min_width, 80);
    assert_eq!(config.min_height, 24);
    assert!(config.enable_mouse);
    assert!(config.use_alternate_screen);
}

#[test]
fn test_terminal_config_custom() {
    let config = TerminalConfig {
        min_width: 100,
        min_height: 30,
        enable_mouse: false,
        use_alternate_screen: false,
    };
    assert_eq!(config.min_width, 100);
    assert_eq!(config.min_height, 30);
    assert!(!config.enable_mouse);
    assert!(!config.use_alternate_screen);
}

#[test]
fn test_utils_supports_color() {
    assert!(utils::supports_color());
}

#[test]
fn terminal_size_is_checked_width_first() {
    assert_eq!(MIN_WIDTH, 80);
    assert_eq!(MIN_HEIGHT, 24);
    assert!(validate_size(80, 24, MIN_WIDTH, MIN_HEIGHT).is_ok());
    assert!(validate_size(u16::MAX, u16::MAX, MIN_WIDTH, MIN_HEIGHT).is_ok());
    match validate_size(79, 10, MIN_WIDTH, MIN_HEIGHT) {
        Err(RestlessError::Terminal(msg)) => {
            assert_eq!(msg, "Terminal width too small: 79 (minimum: 80)")
        }
        _ => panic!("a narrow terminal must be refused"),
    }
    match validate_size(80, 0, MIN_WIDTH, MIN_HEIGHT) {
        Err(RestlessError::Terminal(msg)) => {
            assert_eq!(msg, "Terminal height too small: 0 (minimum: 24)")
        }
        _ => panic!("a short terminal must be refused"),
    }
    let config = TerminalConfig {
        min_width: 100,
        min_height: 30,
        enable_mouse: false,
        use_alternate_screen: false,
    };
    assert!(config.validate_size(100, 30).is_ok());
    match config.validate_size(100, 29) {
        Err(e) => assert_eq!(
            e.to_string(),
            "Terminal error: Terminal height too small: 29 (minimum: 30)"
        ),
        Ok(()) => panic!("a short terminal must be refused"),
    }
}
