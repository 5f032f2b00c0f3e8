use apollo_logger::levels::Levels;
use apollo_logger::Apollo;

/// Tests that debug gives a line at the default threshold
#[test]
fn test_debug() {
    let logger = Apollo::new();
    assert!(logger.debug("This is a test debug message").is_some());
}

/// Tests that debug gives nothing where the threshold is higher
#[test]
fn test_debug_under_level() {
    let logger = Apollo { logging_level: Levels::INFO };
    assert!(logger.debug("This is a test debug message").is_none());
}

/// Tests that info gives a line at the default threshold
#[test]
fn test_info() {
    let logger = Apollo::new();
    assert!(logger.info("This is a test info message").is_some());
}

/// Tests that info gives nothing where the threshold is higher
#[test]
fn test_info_under_level() {
    let logger = Apollo { logging_level: Levels::WARN };
    assert!(logger.info("This is a test info message").is_none());
}

/// Tests that warn gives a line at the default threshold
#[test]
fn test_warn() {
    let logger = Apollo::new();
    assert!(logger.warn("This is a test warning message").is_some());
}

/// Tests that warn gives nothing where the threshold is higher
#[test]
fn test_warn_under_level() {
    let logger = Apollo { logging_level: Levels::ERROR };
    assert!(logger.warn("This is a test warning message").is_none());
}

/// Tests that error gives a line at the default threshold
#[test]
fn test_error() {
    let logger = Apollo::new();
    assert!(logger.error("This is a test error message").is_some());
}

/// Tests that error gives nothing where the threshold is higher
#[test]
fn test_error_under_level() {
    let logger = Apollo { logging_level: Levels::CRITICAL };
    assert!(logger.error("This is a test error message").is_none());
}

/// Tests that critical gives a line at the default threshold
#[test]
fn test_critical() {
    let logger = Apollo::new();
    assert!(logger.critical("This is a test critical message").is_some());
}

/// Tests that critical gives nothing where the threshold is higher
#[test]
fn test_critical_under_level() {
    let logger = Apollo { logging_level: Levels::NONE };
    assert!(logger.critical("This is a test critical message").is_none());
}

/// Tests that every call is suppressed at the threshold NONE
#[test]
fn test_logging_level_none() {
    let logger = Apollo { logging_level: Levels::NONE };
    assert!(logger.debug("This is a test debug message").is_none());
    assert!(logger.info("This is a test info message").is_none());
    assert!(logger.warn("This is a test warning message").is_none());
    assert!(logger.error("This is a test error message").is_none());
    assert!(logger.critical("This is a test critical message").is_none());
}

#[test]
fn test_default_creates_new_instance() {
    let logger = Apollo::default();

    assert!(logger.debug("This is a test debug message").is_some());
}
