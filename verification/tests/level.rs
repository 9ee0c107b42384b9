use oslog::Level;
use oslog::OsLogger;
use oslog::Severity;

const SEVERITIES: [Severity; 5] = [
    Severity::Trace,
    Severity::Debug,
    Severity::Info,
    Severity::Warn,
    Severity::Error,
];

const LEVELS: [Level; 5] = [
    Level::Debug,
    Level::Info,
    Level::Default,
    Level::Error,
    Level::Fault,
];

#[test]
fn test_severity_mapping_monotonic() {
    for i in 0..SEVERITIES.len() {
        for j in i..SEVERITIES.len() {
            assert!(
                SEVERITIES[i].native_level().code() <= SEVERITIES[j].native_level().code()
            );
        }
    }
}

#[test]
fn test_severity_mapping_exact() {
    assert_eq!(Severity::Trace.native_level(), Level::Debug);
    assert_eq!(Severity::Debug.native_level(), Level::Info);
    assert_eq!(Severity::Info.native_level(), Level::Default);
    assert_eq!(Severity::Warn.native_level(), Level::Error);
    assert_eq!(Severity::Error.native_level(), Level::Fault);
}

#[test]
fn test_native_facade_round_trip() {
    for s in SEVERITIES {
        assert_eq!(s.native_level().facade(), s);
    }
    for l in LEVELS {
        assert_eq!(l.facade().native_level(), l);
    }
}

#[test]
fn test_native_codes_ordered() {
    for i in 1..LEVELS.len() {
        assert!(LEVELS[i - 1].code() < LEVELS[i].code());
    }
}

#[test]
fn logger_test_basic_usage() {
    let mut logger = OsLogger::new("com.example.oslog")
        .level_filter(Severity::Trace)
        .category_level_filter("Settings", Severity::Warn)
        .category_level_filter("Database", Severity::Error)
        .category_level_filter("Database", Severity::Trace);

    // This will not be logged because of its category's custom level filter.
    assert!(logger.log("Settings", Severity::Info, "Info", true).is_none());

    assert!(logger.log("Settings", Severity::Warn, "Warn", true).is_some());
    assert!(logger.log("Settings", Severity::Error, "Error", true).is_some());

    assert!(logger.log("uncategorized", Severity::Trace, "Trace", true).is_some());
    assert!(logger.log("uncategorized", Severity::Debug, "Debug", true).is_some());
    assert!(logger.log("uncategorized", Severity::Info, "Info", true).is_some());
    assert!(logger.log("Database", Severity::Warn, "Warn", true).is_some());
    assert!(logger.log("uncategorized", Severity::Error, "Error", true).is_some());
}
