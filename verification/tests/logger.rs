use oslog::OsLogger;
use oslog::Severity;

#[test]
fn test_basic_usage() {
    let mut logger = OsLogger::new("com.example.oslog")
        .level_filter(Severity::Trace)
        .category_level_filter("Settings", Severity::Warn)
        .category_level_filter("Database", Severity::Error)
        .category_level_filter("Database", Severity::Trace);

    // This will not be logged because of its category's custom level filter.
    assert!(logger.log("Settings", Severity::Info, "Info", true).is_none());

    assert!(logger.log("Settings", Severity::Warn, "Warn", true).is_some());
    assert!(logger.log("Settings", Severity::Error, "Error", true).is_some());

    assert!(logger.log("uncategorized", Severity::Trace, "Trace", true).is_some());
    assert!(logger.log("uncategorized", Severity::Debug, "Debug", true).is_some());
    assert!(logger.log("uncategorized", Severity::Info, "Info", true).is_some());
    assert!(logger.log("Database", Severity::Warn, "Warn", true).is_some());
    assert!(logger.log("uncategorized", Severity::Error, "Error", true).is_some());
}

#[test]
fn test_category_filter_more_permissive_than_global() {
    let mut logger = OsLogger::new("com.example.test")
        .level_filter(Severity::Info)  // Global: Info and above
        .category_level_filter("verbose", Severity::Trace);  // Category: more permissive

    // Test that the advertised global max level is the most permissive (Trace)
    assert_eq!(logger.advertised_max(), Severity::Trace);

    // Test enabled checks
    assert!(logger.enabled("verbose", Severity::Trace, true));

    assert!(logger.enabled("verbose", Severity::Debug, true));

    assert!(!logger.enabled("default_category", Severity::Trace, true));  // Global filter blocks this

    assert!(logger.enabled("default_category", Severity::Info, true));  // Global filter allows this
}

#[test]
fn test_multiple_category_filters() {
    let mut logger = OsLogger::new("com.example.test")
        .level_filter(Severity::Warn)  // Global: Warn and above
        .category_level_filter("debug_cat", Severity::Debug)  // More permissive
        .category_level_filter("quiet_cat", Severity::Error);  // Less permissive

    // The advertised global max level should be the most permissive (Debug)
    assert_eq!(logger.advertised_max(), Severity::Debug);

    // Test debug category (most permissive)
    assert!(logger.enabled("debug_cat", Severity::Debug, true));

    // Test quiet category (less permissive)
    assert!(!logger.enabled("quiet_cat", Severity::Warn, true));  // Category filter blocks this

    assert!(logger.enabled("quiet_cat", Severity::Error, true));  // Category filter allows this
}

#[test]
fn test_dynamic_category_filter_updates() {
    let mut logger = OsLogger::new("com.example.test").level_filter(Severity::Info);

    // Initially, the advertised max level should be Info
    logger.update_global_max_level();
    assert_eq!(logger.advertised_max(), Severity::Info);

    // Add a more permissive category filter
    let logger = logger.category_level_filter("trace_cat", Severity::Trace);

    // The advertised max level should now be Trace
    assert_eq!(logger.advertised_max(), Severity::Trace);
}

#[test]
fn test_advertised_max_tracks_every_mutation() {
    let logger = OsLogger::new("com.example.test").level_filter(Severity::Info);
    assert_eq!(logger.advertised_max(), Severity::Info);

    let logger = logger.category_level_filter("a", Severity::Warn);
    assert_eq!(logger.advertised_max(), Severity::Info);

    let logger = logger.category_level_filter("b", Severity::Trace);
    assert_eq!(logger.advertised_max(), Severity::Trace);

    // Overrides are never removed: tightening "b" recomputes the maximum
    // over the default (Error) and the overrides (Warn, Error).
    let logger = logger.level_filter(Severity::Error);
    assert_eq!(logger.advertised_max(), Severity::Trace);

    let logger = logger.category_level_filter("b", Severity::Error);
    assert_eq!(logger.advertised_max(), Severity::Warn);
}

#[test]
fn test_resolve_creates_exactly_one_handle() {
    let mut logger = OsLogger::new("com.example.test");
    let before = logger.next_handle_id();

    let (level1, h1) = logger.resolve("fresh_cat");
    let mid = logger.next_handle_id();
    let (level2, h2) = logger.resolve("fresh_cat");
    let after = logger.next_handle_id();

    // Exactly one handle was created for the category, on first reference.
    assert_eq!(mid, before + 1);
    assert_eq!(after, mid);
    assert_eq!(h1.id(), h2.id());
    assert_eq!(level1, Severity::Trace);
    assert_eq!(level2, Severity::Trace);

    // A different category gets a different handle.
    let (_, h3) = logger.resolve("other_cat");
    assert_ne!(h3.id(), h1.id());
}

#[test]
fn test_log_emits_iff_both_checks_pass() {
    let mut logger = OsLogger::new("com.example.test")
        .level_filter(Severity::Info);

    // Severity passes and the native check passes: emitted.
    let emission = logger.log("net", Severity::Warn, "connected", true);
    let emission = emission.expect("message should be emitted");
    assert_eq!(emission.level, oslog::Level::Error);
    assert_eq!(
        emission.message,
        vec![b'c', b'o', b'n', b'n', b'e', b'c', b't', b'e', b'd', 0u8],
    );

    // Severity below the effective level: not emitted.
    assert!(logger.log("net", Severity::Debug, "noise", true).is_none());

    // The native enable check vetoes: not emitted.
    assert!(logger.log("net", Severity::Warn, "connected", false).is_none());
}

#[test]
fn test_registry_handles_are_never_global() {
    let mut logger = OsLogger::new("com.example.test")
        .category_level_filter("a", Severity::Info)
        .category_level_filter("b", Severity::Debug);

    let global = oslog::OsLog::global();
    let (_, ha) = logger.resolve("a");
    let (_, hb) = logger.resolve("b");
    let (_, hc) = logger.resolve("lazily_created");

    // Every registry handle is owned and distinct from the global handle,
    // which alone is never released.
    assert!(!global.releases_on_drop());
    for h in [&ha, &hb, &hc] {
        assert!(h.releases_on_drop());
        assert_ne!(h.id(), global.id());
    }
    assert_ne!(ha.id(), hb.id());
    assert_ne!(ha.id(), hc.id());
    assert_ne!(hb.id(), hc.id());
}

#[test]
fn test_flush_is_a_no_op() {
    let logger = OsLogger::new("com.example.test");
    logger.flush();
}
