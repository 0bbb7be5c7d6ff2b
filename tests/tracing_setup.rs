use kakoune::kakscripts::INIT;
use kakoune::tracing_setup::{
    level_from_parsed, parse_level, KAKOUNE_RS_TEMPDIR_OPTION, KAKOUNE_RS_TRACING_LEVEL_OPTION,
};
use kakoune::{Error, Kakoune, KakouneArgs, Level, TracingArgs, TracingInitializer};

#[test]
fn parse_level_reads_names_and_numbers() {
    assert_eq!(parse_level("info"), Ok(Level::Info));
    assert_eq!(parse_level("TRACE"), Ok(Level::Trace));
    assert_eq!(parse_level("Warn"), Ok(Level::Warn));
    assert_eq!(parse_level("1"), Ok(Level::Error));
    assert_eq!(parse_level("5"), Ok(Level::Trace));
}

#[test]
fn parse_level_refuses_other_text() {
    assert_eq!(parse_level("loud"), Err(Error::LevelFromStr("loud".to_string())));
    assert_eq!(parse_level(""), Err(Error::LevelFromStr(String::new())));
    assert_eq!(parse_level("6"), Err(Error::LevelFromStr("6".to_string())));
}

#[test]
fn level_from_parsed_maps_tags() {
    assert_eq!(level_from_parsed("2", Some("WARN")), Ok(Level::Warn));
    assert_eq!(level_from_parsed("x", None), Err(Error::LevelFromStr("x".to_string())));
}

fn initializer(level: Option<Level>, dir: Option<&str>) -> TracingInitializer {
    let k = Kakoune::new_unchecked("sess".to_string());
    TracingArgs::new(level, dir.map(|d| d.to_string())).into_initializer(&k)
}

#[test]
fn given_level_needs_no_query() {
    let init = initializer(Some(Level::Debug), None);
    assert_eq!(init.level_query(), None);
    assert_eq!(init.tracing_level("garbage"), Ok(Level::Debug));
    assert_eq!(init.kakoune().session(), "sess");
}

#[test]
fn missing_level_is_asked_of_the_session() {
    let init = initializer(None, None);
    assert_eq!(init.level_query(), Some(KAKOUNE_RS_TRACING_LEVEL_OPTION));
    assert_eq!(init.tracing_level("debug"), Ok(Level::Debug));
    assert_eq!(init.tracing_level("nope"), Err(Error::LevelFromStr("nope".to_string())));
}

#[test]
fn tempdir_given_or_asked() {
    let given = initializer(None, Some("/var/log/kak"));
    assert_eq!(given.tempdir_query(), None);
    assert_eq!(given.tempdir("/other"), "/var/log/kak");

    let empty = initializer(None, Some(""));
    assert_eq!(empty.tempdir_query(), Some(KAKOUNE_RS_TEMPDIR_OPTION));
    assert_eq!(empty.tempdir("/from/session"), "/from/session");

    let absent = initializer(None, None);
    assert_eq!(absent.tempdir_query(), Some(KAKOUNE_RS_TEMPDIR_OPTION));
    assert_eq!(absent.tempdir("/s"), "/s");
}

#[test]
fn register_command_names_module() {
    assert_eq!(TracingInitializer::register_command("lean.kak"), "register-log-module lean.kak");
}

#[test]
fn init_script_declares_marker_and_tags() {
    assert!(INIT.contains("declare-option -hidden bool kakoune_rs_logging_initialized true"));
    for tag in ["'^(TRACE):'", "'^(DEBUG):'", "'^(INFO):'", "'^(WARN):'", "'^(ERROR):'"] {
        assert!(INIT.contains(tag));
    }
}

#[test]
fn args_split_into_session_and_tracing() {
    let args = KakouneArgs::new("work".to_string(), TracingArgs::new(Some(Level::Info), None));
    assert_eq!(args.kakoune_session(), "work");
    let (k, t) = args.into_parts();
    assert_eq!(k.session(), "work");
    assert_eq!(t.into_initializer(&k).level_query(), None);
}
