use oslog::HandleIds;
use oslog::Level;
use oslog::OsLog;

#[test]
fn test_subsystem_interior_null() {
    let mut ids = HandleIds::new();
    let log = OsLog::new("com.example.oslog\0test", "category", &mut ids);
    let _ = log.with_level(Level::Debug, "Hi");
}

#[test]
fn test_category_interior_null() {
    let mut ids = HandleIds::new();
    let log = OsLog::new("com.example.oslog", "category\0test", &mut ids);
    let _ = log.with_level(Level::Debug, "Hi");
}

#[test]
fn test_message_interior_null() {
    let mut ids = HandleIds::new();
    let log = OsLog::new("com.example.oslog", "category", &mut ids);
    let _ = log.with_level(Level::Debug, "Hi\0test");
}

#[test]
fn test_message_emoji() {
    let mut ids = HandleIds::new();
    let log = OsLog::new("com.example.oslog", "category", &mut ids);
    let _ = log.with_level(Level::Debug, "\u{1F601}");
}

#[test]
fn test_global_log_with_level() {
    let log = OsLog::global();
    let _ = log.with_level(Level::Debug, "Debug");
    let _ = log.with_level(Level::Info, "Info");
    let _ = log.with_level(Level::Default, "Default");
    let _ = log.with_level(Level::Error, "Error");
    let _ = log.with_level(Level::Fault, "Fault");
}

#[test]
fn test_custom_log_with_level() {
    let mut ids = HandleIds::new();
    let log = OsLog::new("com.example.oslog", "testing", &mut ids);
    let _ = log.with_level(Level::Debug, "Debug");
    let _ = log.with_level(Level::Info, "Info");
    let _ = log.with_level(Level::Default, "Default");
    let _ = log.with_level(Level::Error, "Error");
    let _ = log.with_level(Level::Fault, "Fault");
}

#[test]
fn test_marshal_plain_text() {
    let mut ids = HandleIds::new();
    let log = OsLog::new("com.example.oslog", "category", &mut ids);
    let e = log.with_level(Level::Debug, "Hi");
    assert_eq!(e.message, vec![b'H', b'i', 0u8]);
    assert_eq!(e.level, Level::Debug);
    assert_eq!(e.handle, log.id());
}

#[test]
fn test_marshal_interior_null_degrades_to_empty() {
    let original = "Hi\0test";
    let bytes = oslog::marshal::marshal_str(original);
    assert_eq!(bytes, vec![0u8]);
    assert!(bytes.len() <= original.len() + 1);

    let mut ids = HandleIds::new();
    let log = OsLog::new("com.example.oslog", "category", &mut ids);
    let e = log.with_level(Level::Debug, original);
    assert_eq!(e.message, vec![0u8]);
    assert!(e.message.len() <= original.len() + 1);
}

#[test]
fn test_marshal_names_with_interior_null() {
    let mut ids = HandleIds::new();
    let log = OsLog::new("com.example.oslog\0test", "category\0test", &mut ids);
    assert_eq!(log.subsystem_cstr(), &vec![0u8]);
    assert_eq!(log.category_cstr(), &vec![0u8]);

    let plain = OsLog::new("sub", "cat", &mut ids);
    assert_eq!(plain.subsystem_cstr(), &vec![b's', b'u', b'b', 0u8]);
    assert_eq!(plain.category_cstr(), &vec![b'c', b'a', b't', 0u8]);
}

#[test]
fn test_marshal_empty_text() {
    let bytes = oslog::marshal::marshal_bytes(&[]);
    assert_eq!(bytes, vec![0u8]);
    let bytes = oslog::marshal::marshal_str("");
    assert_eq!(bytes, vec![0u8]);
}

#[test]
fn test_global_handle_never_released() {
    let global = OsLog::global();
    assert!(!global.releases_on_drop());

    let mut ids = HandleIds::new();
    let owned = OsLog::new("com.example.oslog", "category", &mut ids);
    assert!(owned.releases_on_drop());
    assert_ne!(owned.id(), global.id());
}
