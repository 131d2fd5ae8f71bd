use vmark::error::HotExitError;
use vmark::session::{SessionData, MAX_SESSION_AGE_DAYS, SCHEMA_VERSION, SECONDS_PER_DAY};
use vmark::text::{decimal_string, signed_decimal_string};

const TEST_VERSION: &str = "0.3.18";

#[test]
fn test_session_compatibility() {
    let session = SessionData::new(TEST_VERSION.to_string());
    assert!(session.is_compatible());

    // Create new incompatible session instead of cloning
    let mut old_session = SessionData::new(TEST_VERSION.to_string());
    old_session.version = 0;
    assert!(!old_session.is_compatible());
}

#[test]
fn test_stale_session() {
    let mut session = SessionData::new(TEST_VERSION.to_string());
    let now = chrono::Utc::now().timestamp();

    // 8 days old - should be stale
    session.timestamp = now - (8 * SECONDS_PER_DAY);
    assert!(session.is_stale(MAX_SESSION_AGE_DAYS));

    // 6 days old - should not be stale
    session.timestamp = now - (6 * SECONDS_PER_DAY);
    assert!(!session.is_stale(MAX_SESSION_AGE_DAYS));

    // Future timestamp - should be stale (clock skew)
    session.timestamp = now + SECONDS_PER_DAY;
    assert!(session.is_stale(MAX_SESSION_AGE_DAYS));

    // Invalid max_age_days - should be stale
    session.timestamp = now - SECONDS_PER_DAY;
    assert!(session.is_stale(0));
    assert!(session.is_stale(-1));
}

#[test]
fn new_session_is_empty_and_current() {
    let before = chrono::Utc::now().timestamp();
    let session = SessionData::new(TEST_VERSION.to_string());
    let after = chrono::Utc::now().timestamp();
    assert_eq!(session.version, SCHEMA_VERSION);
    assert_eq!(session.vmark_version, TEST_VERSION);
    assert!(session.windows.is_empty());
    assert!(session.workspace.is_none());
    assert!(before <= session.timestamp && session.timestamp <= after);
}

fn session_at(timestamp: i64) -> SessionData {
    let mut session = SessionData::new(TEST_VERSION.to_string());
    session.timestamp = timestamp;
    session
}

#[test]
fn stale_exactly_past_the_allowed_age() {
    let now = 1_700_000_000;
    let limit = 7 * 86_400;
    assert!(!session_at(now - limit).is_stale_at(now, 7));
    assert!(session_at(now - limit - 1).is_stale_at(now, 7));
    assert!(!session_at(now).is_stale_at(now, 7));
    assert!(!session_at(now - 1).is_stale_at(now, 1));
    assert!(!session_at(now - 86_400).is_stale_at(now, 1));
    assert!(session_at(now - 86_401).is_stale_at(now, 1));
}

#[test]
fn stale_for_every_age_that_is_not_positive() {
    let now = 1_700_000_000;
    for days in [0, -1, -7, i64::MIN] {
        assert!(session_at(now).is_stale_at(now, days));
        assert!(session_at(now - 1).is_stale_at(now, days));
        assert!(session_at(now).is_stale(days));
    }
}

#[test]
fn stale_when_stamped_in_the_future() {
    let now = 1_700_000_000;
    for days in [1, 7, 100_000, i64::MAX] {
        assert!(session_at(now + 1).is_stale_at(now, days));
        assert!(session_at(i64::MAX).is_stale_at(now, days));
    }
}

#[test]
fn stale_when_the_allowed_age_overflows() {
    let now = 1_700_000_000;
    assert!(session_at(now).is_stale_at(now, i64::MAX));
    assert!(session_at(now).is_stale_at(now, i64::MAX / 86_400 + 1));
    assert!(!session_at(now).is_stale_at(now, i64::MAX / 86_400));
}

#[test]
fn stale_when_the_age_itself_overflows() {
    assert!(session_at(i64::MIN).is_stale_at(1, 7));
    assert!(session_at(i64::MIN).is_stale_at(i64::MAX, i64::MAX / 86_400));
    assert!(!session_at(i64::MIN).is_stale_at(i64::MIN, 7));
}

#[test]
fn decimal_numerals() {
    assert_eq!(decimal_string(0), "0");
    assert_eq!(decimal_string(7), "7");
    assert_eq!(decimal_string(10), "10");
    assert_eq!(decimal_string(1_234_567_890), "1234567890");
    assert_eq!(decimal_string(u64::MAX), "18446744073709551615");
    assert_eq!(signed_decimal_string(0), "0");
    assert_eq!(signed_decimal_string(-1), "-1");
    assert_eq!(signed_decimal_string(i64::MAX), "9223372036854775807");
    assert_eq!(signed_decimal_string(i64::MIN), "-9223372036854775808");
}

#[test]
fn error_messages() {
    assert_eq!(
        HotExitError::NoWindowsToCapture.message(),
        "No document windows to capture"
    );
    assert_eq!(
        HotExitError::CaptureTimeout.message(),
        "Capture timeout: no windows responded"
    );
    assert_eq!(
        HotExitError::MigrationGap { version: 3 }.message(),
        "No migration path from version 3"
    );
    assert_eq!(
        HotExitError::IncompatibleVersion { version: 2 }.message(),
        "Incompatible session version: 2 (supported: 1 to 1)"
    );
    assert_eq!(
        HotExitError::StaleSession.message(),
        "Session is too old (>7 days)"
    );
    assert_eq!(
        HotExitError::WindowNotFound.message(),
        "No document window found for restore"
    );
    assert_eq!(
        HotExitError::MainWindowNotFound.message(),
        "Main window not found"
    );
    assert_eq!(
        HotExitError::EmptySession.message(),
        "No window state in session"
    );
}
