use screeps_colony::logging::{set_log_level, LogLevel, Startup};

#[test]
fn levels_by_name() {
    assert_eq!(LogLevel::from_name("error"), Some(LogLevel::Error));
    assert_eq!(LogLevel::from_name("warn"), Some(LogLevel::Warn));
    assert_eq!(LogLevel::from_name("info"), Some(LogLevel::Info));
    assert_eq!(LogLevel::from_name("debug"), Some(LogLevel::Debug));
    assert_eq!(LogLevel::from_name("trace"), Some(LogLevel::Trace));
}

#[test]
fn other_texts_name_no_level() {
    for name in ["", "off", "Error", "WARN", "warning", "info ", " debug", "tracer", "trac"] {
        assert_eq!(LogLevel::from_name(name), None);
    }
}

#[test]
fn set_log_level_sets_the_named_level_and_rejects_the_rest() {
    let levels = [
        ("error", log::LevelFilter::Error),
        ("warn", log::LevelFilter::Warn),
        ("info", log::LevelFilter::Info),
        ("debug", log::LevelFilter::Debug),
        ("trace", log::LevelFilter::Trace),
    ];
    for (name, filter) in levels {
        assert_eq!(set_log_level(name.to_string()), Ok(()));
        assert_eq!(log::max_level(), filter);
        assert_eq!(set_log_level("verbose".to_string()), Err("Invalid log level".to_string()));
        assert_eq!(set_log_level("Info".to_string()), Err("Invalid log level".to_string()));
        assert_eq!(set_log_level(String::new()), Err("Invalid log level".to_string()));
        assert_eq!(log::max_level(), filter);
    }
}

#[test]
fn set_up_is_due_on_the_first_tick_only() {
    let mut startup = Startup::new();
    assert!(startup.begin());
    for _ in 0..100 {
        assert!(!startup.begin());
    }
}
