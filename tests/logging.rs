use kakoune::logging::{module_tag, same_text};
use kakoune::{Error, EscapedString, Kakoune, Level, Logger, LoggerSlot};

const LEVELS: [Level; 5] = [Level::Trace, Level::Debug, Level::Info, Level::Warn, Level::Error];

fn logger_at(level: Level) -> Logger {
    Logger::new(Kakoune::new_unchecked("s".to_string()), level, module_tag("m"))
}

#[test]
fn level_names() {
    let names: Vec<&str> = LEVELS.iter().map(|l| l.name()).collect();
    assert_eq!(names, vec!["TRACE", "DEBUG", "INFO", "WARN", "ERROR"]);
    for l in LEVELS {
        assert_eq!(Level::from_name(l.name()), Some(l));
    }
    assert_eq!(Level::from_name("info"), None);
    assert_eq!(Level::from_name(""), None);
}

#[test]
fn level_order_is_total_and_transitive() {
    for (i, a) in LEVELS.iter().enumerate() {
        for (j, b) in LEVELS.iter().enumerate() {
            assert_eq!(a.at_least(b), i >= j);
            assert_eq!(a < b, i < j);
        }
    }
}

#[test]
fn logger_filters_below_its_level() {
    let logger = logger_at(Level::Info);
    let message = EscapedString::escape("hi");
    for l in LEVELS {
        let sent = logger.log_command(l, &message);
        assert_eq!(sent.is_some(), l >= Level::Info);
    }
}

#[test]
fn logger_command_text() {
    let logger = logger_at(Level::Trace);
    let message = EscapedString::escape("hello there");
    assert_eq!(
        logger.log_command(Level::Error, &message),
        Some("echo -debug ERROR: %§(m)§ %§hello there§".to_string())
    );
    assert_eq!(logger.level(), Level::Trace);
    assert_eq!(logger.kakoune().session(), "s");
}

#[test]
fn module_tag_is_escaped() {
    assert_eq!(module_tag("lean.kak").as_str(), "%§(lean.kak)§");
}

#[test]
fn log_before_init_fails() {
    let slot = LoggerSlot::new();
    assert!(!slot.is_initialized());
    let message = EscapedString::escape("x");
    assert_eq!(slot.log_command(Level::Error, &message), Err(Error::LoggingUninitialized));
    assert!(matches!(slot.logger(), Err(Error::LoggingUninitialized)));
}

#[test]
fn second_init_fails_and_keeps_first() {
    let mut slot = LoggerSlot::new();
    let first = slot.prepare("one".to_string(), Level::Warn, "a").unwrap();
    assert_eq!(slot.install(first), Ok(()));
    assert!(slot.is_initialized());
    assert!(matches!(
        slot.prepare("two".to_string(), Level::Trace, "b"),
        Err(Error::LoggingAlreadyInitialized)
    ));
    let other = logger_at(Level::Trace);
    assert_eq!(slot.install(other), Err(Error::LoggingAlreadyInitialized));
    let kept = slot.logger().unwrap();
    assert_eq!(kept.kakoune().session(), "one");
    assert_eq!(kept.level(), Level::Warn);
    let message = EscapedString::escape("x");
    assert_eq!(slot.log_command(Level::Info, &message), Ok(None));
    assert_eq!(
        slot.log_command(Level::Warn, &message),
        Ok(Some("echo -debug WARN: %§(a)§ %§x§".to_string()))
    );
}

#[test]
fn same_text_compares_characters() {
    assert!(same_text("abc", "abc"));
    assert!(!same_text("abc", "abd"));
    assert!(!same_text("ab", "abc"));
    assert!(same_text("", ""));
}
