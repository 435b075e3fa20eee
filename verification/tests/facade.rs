use clogger::{update_max_level, ConsoleSink, Threshold};

#[test]
fn publishing_sets_the_facade_filter() {
    // All observations of the facade's global filter sit in this one test,
    // so no other test races it.
    assert_eq!(update_max_level(false, 0), Threshold::Warn);
    assert_eq!(log::max_level(), log::LevelFilter::Warn);
    // At the default configuration the facade filters Info out and lets
    // Error through, before anything reaches the sink.
    assert!(log::Level::Info > log::max_level());
    assert!(log::Level::Error <= log::max_level());
    assert!(log::Level::Warn <= log::max_level());

    assert_eq!(update_max_level(false, 1), Threshold::Info);
    assert_eq!(log::max_level(), log::LevelFilter::Info);
    assert!(log::Level::Info <= log::max_level());

    assert_eq!(update_max_level(false, 2), Threshold::Debug);
    assert_eq!(log::max_level(), log::LevelFilter::Debug);

    assert_eq!(update_max_level(false, 3), Threshold::Trace);
    assert_eq!(log::max_level(), log::LevelFilter::Trace);

    assert_eq!(update_max_level(false, 4096), Threshold::Trace);
    assert_eq!(log::max_level(), log::LevelFilter::Trace);

    assert_eq!(update_max_level(true, 4096), Threshold::Off);
    assert_eq!(log::max_level(), log::LevelFilter::Off);
    assert!(log::Level::Error > log::max_level());

    let mut sink = ConsoleSink::new();
    sink.set_verbosity(1);
    assert_eq!(log::max_level(), log::LevelFilter::Info);
    sink.set_quiet(true);
    assert_eq!(log::max_level(), log::LevelFilter::Off);
    sink.set_quiet(false);
    assert_eq!(log::max_level(), log::LevelFilter::Info);
    assert!(sink.try_init().is_ok());
    assert_eq!(log::max_level(), log::LevelFilter::Info);
}
