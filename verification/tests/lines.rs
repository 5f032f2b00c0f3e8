use apollo_logger::levels::Levels;
use apollo_logger::Apollo;

fn all_levels() -> [Levels; 6] {
    [Levels::DEBUG, Levels::INFO, Levels::WARN, Levels::ERROR, Levels::CRITICAL, Levels::NONE]
}

fn labels() -> [&'static str; 5] {
    ["[ DEBUG ]", "[ INFO  ]", "[ WARN  ]", "[ ERROR ]", "[ CRIT  ]"]
}

fn timestamp_of(line: &str) -> &str {
    let opened = line.strip_prefix("\x1B[92m[").unwrap();
    &opened[..opened.find(']').unwrap()]
}

#[test]
fn render_debug_line_is_exact() {
    let line = Apollo::new().render(Levels::DEBUG, "01/02/03 04:05:06.789", "main.rs:12", "x");
    assert_eq!(
        line.unwrap(),
        "\x1B[92m[01/02/03 04:05:06.789]\x1B[0m \x1B[36m[ DEBUG ]\x1B[0m | \x1B[3mmain.rs:12\x1B[0m | \x1B[96mx\x1B[0m"
    );
}

#[test]
fn render_info_line_is_exact() {
    let line = Apollo::new().render(Levels::INFO, "T", "a.rs:1", "hello");
    assert_eq!(
        line.unwrap(),
        "\x1B[92m[T]\x1B[0m \x1B[34m[ INFO  ]\x1B[0m | \x1B[3ma.rs:1\x1B[0m | \x1B[97mhello\x1B[0m"
    );
}

#[test]
fn render_warn_line_is_exact() {
    let line = Apollo::new().render(Levels::WARN, "T", "a.rs:1", "careful");
    assert_eq!(
        line.unwrap(),
        "\x1B[92m[T]\x1B[0m \x1B[33m[ WARN  ]\x1B[0m | \x1B[3ma.rs:1\x1B[0m | \x1B[33;1mcareful\x1B[0m"
    );
}

#[test]
fn render_error_line_is_exact() {
    let line = Apollo::new().render(Levels::ERROR, "T", "Unknown:0", "y");
    assert_eq!(
        line.unwrap(),
        "\x1B[92m[T]\x1B[0m \x1B[31m[ ERROR ]\x1B[0m | \x1B[3mUnknown:0\x1B[0m | \x1B[31;1my\x1B[0m"
    );
}

#[test]
fn render_critical_line_is_exact() {
    let line = Apollo::new().render(Levels::CRITICAL, "T", "a.rs:1", "down");
    assert_eq!(
        line.unwrap(),
        "\x1B[92m[T]\x1B[0m \x1B[91m[ CRIT  ]\x1B[0m | \x1B[3ma.rs:1\x1B[0m | \x1B[97;101;1;4mdown\x1B[0m"
    );
}

#[test]
fn render_takes_empty_columns() {
    let line = Apollo::new().render(Levels::DEBUG, "", "", "");
    assert_eq!(
        line.unwrap(),
        "\x1B[92m[]\x1B[0m \x1B[36m[ DEBUG ]\x1B[0m | \x1B[3m\x1B[0m | \x1B[96m\x1B[0m"
    );
}

#[test]
fn render_never_gives_a_line_at_the_level_none() {
    for threshold in all_levels() {
        let logger = Apollo { logging_level: threshold };
        assert!(logger.render(Levels::NONE, "T", "a.rs:1", "x").is_none());
    }
}

#[test]
fn render_emits_exactly_at_or_above_the_threshold() {
    for threshold in all_levels() {
        for level in [Levels::DEBUG, Levels::INFO, Levels::WARN, Levels::ERROR, Levels::CRITICAL] {
            let logger = Apollo { logging_level: threshold };
            let line = logger.render(level, "T", "a.rs:1", "x");
            assert_eq!(line.is_some(), level.as_u8() >= threshold.as_u8());
        }
    }
}

#[test]
fn methods_emit_exactly_at_or_above_the_threshold() {
    for threshold in all_levels() {
        let logger = Apollo { logging_level: threshold };
        let rank = threshold.as_u8();
        assert_eq!(logger.debug("x").is_some(), Levels::DEBUG.as_u8() >= rank);
        assert_eq!(logger.info("x").is_some(), Levels::INFO.as_u8() >= rank);
        assert_eq!(logger.warn("x").is_some(), Levels::WARN.as_u8() >= rank);
        assert_eq!(logger.error("x").is_some(), Levels::ERROR.as_u8() >= rank);
        assert_eq!(logger.critical("x").is_some(), Levels::CRITICAL.as_u8() >= rank);
    }
}

#[test]
fn every_line_ends_with_the_full_reset() {
    let logger = Apollo::new();
    for level in [Levels::DEBUG, Levels::INFO, Levels::WARN, Levels::ERROR, Levels::CRITICAL] {
        let line = logger.render(level, "T", "a.rs:1", "text").unwrap();
        assert!(line.ends_with("\x1B[0m"));
    }
    assert!(logger.debug("x").unwrap().ends_with("\x1B[0m"));
    assert!(logger.critical("x").unwrap().ends_with("\x1B[0m"));
}

#[test]
fn every_line_holds_its_own_label_once_and_no_other() {
    let logger = Apollo::new();
    let levels = [Levels::DEBUG, Levels::INFO, Levels::WARN, Levels::ERROR, Levels::CRITICAL];
    for (own, level) in levels.into_iter().enumerate() {
        let line = logger.render(level, "01/02/03 04:05:06.789", "a.rs:1", "text").unwrap();
        for (other, label) in labels().into_iter().enumerate() {
            let count = line.matches(label).count();
            assert_eq!(count, if other == own { 1 } else { 0 });
        }
        assert_eq!(line.find(labels()[own]), Some("01/02/03 04:05:06.789".len() + 17));
    }
}

#[test]
fn a_label_in_the_message_is_carried_as_it_is() {
    let line = Apollo::new().render(Levels::DEBUG, "T", "a.rs:1", "seen [ INFO  ] before").unwrap();
    assert_eq!(line.matches("[ DEBUG ]").count(), 1);
    assert_eq!(line.matches("[ INFO  ]").count(), 1);
}

#[test]
fn debug_line_holds_its_label_and_message() {
    let line = Apollo { logging_level: Levels::DEBUG }.debug("x").unwrap();
    assert!(line.contains("[ DEBUG ]"));
    assert!(line.ends_with("\x1B[96mx\x1B[0m"));
}

#[test]
fn debug_is_suppressed_below_the_threshold() {
    assert!(Apollo { logging_level: Levels::INFO }.debug("x").is_none());
}

#[test]
fn error_passes_a_lower_threshold() {
    let line = Apollo { logging_level: Levels::WARN }.error("y").unwrap();
    assert!(line.contains("[ ERROR ]"));
    assert!(line.ends_with("\x1B[31;1my\x1B[0m"));
}

#[test]
fn info_warn_and_critical_lines_hold_label_and_message() {
    let logger = Apollo::default();
    let info = logger.info("one").unwrap();
    assert!(info.contains("\x1B[34m[ INFO  ]\x1B[0m | "));
    assert!(info.ends_with(" | \x1B[97mone\x1B[0m"));
    let warn = logger.warn("two").unwrap();
    assert!(warn.contains("\x1B[33m[ WARN  ]\x1B[0m | "));
    assert!(warn.ends_with(" | \x1B[33;1mtwo\x1B[0m"));
    let critical = logger.critical("three").unwrap();
    assert!(critical.contains("\x1B[91m[ CRIT  ]\x1B[0m | "));
    assert!(critical.ends_with(" | \x1B[97;101;1;4mthree\x1B[0m"));
}

#[test]
fn a_line_opens_with_the_time_as_month_day_year_and_clock() {
    let line = Apollo::new().debug("x").unwrap();
    let time: Vec<char> = timestamp_of(&line).chars().collect();
    assert_eq!(time.len(), "MM/DD/YY HH:MM:SS.mmm".len());
    for (at, c) in time.iter().enumerate() {
        match at {
            2 | 5 => assert_eq!(*c, '/'),
            8 => assert_eq!(*c, ' '),
            11 | 14 => assert_eq!(*c, ':'),
            17 => assert_eq!(*c, '.'),
            _ => assert!(c.is_ascii_digit()),
        }
    }
}

#[test]
fn a_line_shows_where_it_was_called_or_the_stand_in() {
    let line = Apollo::new().info("x").unwrap();
    let after_label = line.split("\x1B[0m | ").nth(1).unwrap();
    let place = after_label.strip_prefix("\x1B[3m").unwrap();
    let (file, number) = place.rsplit_once(':').unwrap();
    assert!(!file.is_empty());
    assert!(!number.is_empty());
    assert!(number.chars().all(|c| c.is_ascii_digit()));
}

#[test]
fn new_and_default_start_at_debug() {
    assert_eq!(Apollo::new().logging_level.as_u8(), 0);
    assert_eq!(Apollo::default().logging_level.as_u8(), 0);
}
