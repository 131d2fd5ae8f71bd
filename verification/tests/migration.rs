use vmark::error::HotExitError;
use vmark::migration::{can_migrate, migrate_session, needs_migration, MIN_SUPPORTED_VERSION};
use vmark::session::{SessionData, SCHEMA_VERSION};

#[test]
fn test_can_migrate_current_version() {
    assert!(can_migrate(SCHEMA_VERSION));
}

#[test]
fn test_can_migrate_older_version() {
    assert!(can_migrate(1));
}

#[test]
fn test_cannot_migrate_future_version() {
    assert!(!can_migrate(SCHEMA_VERSION + 1));
    assert!(!can_migrate(999));
}

#[test]
fn test_cannot_migrate_version_zero() {
    assert!(!can_migrate(0));
}

#[test]
fn test_migrate_current_version_unchanged() {
    let session = SessionData::new("0.3.24".to_string());
    let migrated = migrate_session(session.clone()).unwrap();
    assert_eq!(migrated.version, SCHEMA_VERSION);
}

#[test]
fn test_migrate_future_version_fails() {
    let mut session = SessionData::new("1.0.0".to_string());
    session.version = SCHEMA_VERSION + 1;

    let result = migrate_session(session);
    assert!(result.is_err());
    assert!(result.unwrap_err().message().contains("Cannot migrate"));
}

#[test]
fn test_needs_migration() {
    let mut session = SessionData::new("0.3.24".to_string());

    // Current version - no migration needed
    assert!(!needs_migration(&session));

    // Older version - needs migration
    session.version = 1;
    if SCHEMA_VERSION > 1 {
        assert!(needs_migration(&session));
    }
}

#[test]
fn can_migrate_holds_on_the_whole_supported_range() {
    for version in MIN_SUPPORTED_VERSION..=SCHEMA_VERSION {
        assert!(can_migrate(version));
    }
    assert!(!can_migrate(MIN_SUPPORTED_VERSION - 1));
    assert!(!can_migrate(u32::MAX));
}

#[test]
fn migrating_a_current_session_changes_nothing() {
    let mut session = SessionData::new("0.3.24".to_string());
    session.timestamp = 1_700_000_000;
    let migrated = migrate_session(session.clone()).unwrap();
    assert_eq!(migrated.version, session.version);
    assert_eq!(migrated.timestamp, 1_700_000_000);
    assert_eq!(migrated.vmark_version, "0.3.24");
    assert!(migrated.windows.is_empty());
    assert!(migrated.workspace.is_none());
}

#[test]
fn migrating_version_zero_is_refused() {
    let mut session = SessionData::new("0.3.24".to_string());
    session.version = 0;
    assert_eq!(
        migrate_session(session).unwrap_err(),
        HotExitError::UnsupportedVersion { version: 0 }
    );
}

#[test]
fn refused_migration_names_the_versions() {
    let error = HotExitError::UnsupportedVersion { version: 42 };
    assert_eq!(
        error.message(),
        "Cannot migrate session from version 42 to 1. Supported versions: 1 to 1"
    );
}
