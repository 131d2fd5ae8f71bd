//! Why a capture, a migration or a restore was refused.

use vstd::prelude::*;
use vstd::string::StringExecFns;

use crate::migration::MIN_SUPPORTED_VERSION;
use crate::session::{MAX_SESSION_AGE_DAYS, SCHEMA_VERSION};
use crate::text::{decimal, decimal_string, signed_decimal, signed_decimal_string};

verus! {

/// The ways in which a coordinator operation fails.
#[derive(Debug, Clone, Copy, PartialEq, Eq, Structural)]
pub enum HotExitError {
    /// No document window is open, so there is nothing to capture.
    NoWindowsToCapture,
    /// The deadline passed and not one window had answered.
    CaptureTimeout,
    /// The session's version lies outside the range that migration accepts.
    UnsupportedVersion { version: u32 },
    /// The migration chain has no step that starts at this version.
    MigrationGap { version: u32 },
    /// The session was written by a newer build than this one.
    IncompatibleVersion { version: u32 },
    /// The session is older than the allowed age, or stamped in the future.
    StaleSession,
    /// No window exists that could receive the restored state.
    WindowNotFound,
    /// The main window, which a multi-window restore needs, does not exist.
    MainWindowNotFound,
    /// The session holds no window state at all.
    EmptySession,
}

impl HotExitError {
    /// The text of the error, as it is shown and logged.
    pub open spec fn message_text(self) -> Seq<char> {
        match self {
            HotExitError::NoWindowsToCapture => "No document windows to capture"@,
            HotExitError::CaptureTimeout => "Capture timeout: no windows responded"@,
            HotExitError::UnsupportedVersion { version } => {
                "Cannot migrate session from version "@ + decimal(version as nat) + " to "@
                    + decimal(SCHEMA_VERSION as nat) + ". Supported versions: "@ + decimal(
                    MIN_SUPPORTED_VERSION as nat,
                ) + " to "@ + decimal(SCHEMA_VERSION as nat)
            },
            HotExitError::MigrationGap { version } => {
                "No migration path from version "@ + decimal(version as nat)
            },
            HotExitError::IncompatibleVersion { version } => {
                "Incompatible session version: "@ + decimal(version as nat) + " (supported: "@
                    + decimal(MIN_SUPPORTED_VERSION as nat) + " to "@ + decimal(
                    SCHEMA_VERSION as nat,
                ) + ")"@
            },
            HotExitError::StaleSession => {
                "Session is too old (>"@ + signed_decimal(MAX_SESSION_AGE_DAYS as int) + " days)"@
            },
            HotExitError::WindowNotFound => "No document window found for restore"@,
            HotExitError::MainWindowNotFound => "Main window not found"@,
            HotExitError::EmptySession => "No window state in session"@,
        }
    }

    /// Writes the error out as text.
    pub fn message(&self) -> (r: String)
        ensures
            r@ == self.message_text(),
    {
        match self {
            HotExitError::NoWindowsToCapture => "No document windows to capture".to_owned(),
            HotExitError::CaptureTimeout => "Capture timeout: no windows responded".to_owned(),
            HotExitError::UnsupportedVersion { version } => {
                let mut r = "Cannot migrate session from version ".to_owned();
                r.append(decimal_string(*version as u64).as_str());
                r.append(" to ");
                r.append(decimal_string(SCHEMA_VERSION as u64).as_str());
                r.append(". Supported versions: ");
                r.append(decimal_string(MIN_SUPPORTED_VERSION as u64).as_str());
                r.append(" to ");
                r.append(decimal_string(SCHEMA_VERSION as u64).as_str());
                r
            },
            HotExitError::MigrationGap { version } => {
                let mut r = "No migration path from version ".to_owned();
                r.append(decimal_string(*version as u64).as_str());
                r
            },
            HotExitError::IncompatibleVersion { version } => {
                let mut r = "Incompatible session version: ".to_owned();
                r.append(decimal_string(*version as u64).as_str());
                r.append(" (supported: ");
                r.append(decimal_string(MIN_SUPPORTED_VERSION as u64).as_str());
                r.append(" to ");
                r.append(decimal_string(SCHEMA_VERSION as u64).as_str());
                r.append(")");
                r
            },
            HotExitError::StaleSession => {
                let mut r = "Session is too old (>".to_owned();
                r.append(signed_decimal_string(MAX_SESSION_AGE_DAYS).as_str());
                r.append(" days)");
                r
            },
            HotExitError::WindowNotFound => "No document window found for restore".to_owned(),
            HotExitError::MainWindowNotFound => "Main window not found".to_owned(),
            HotExitError::EmptySession => "No window state in session".to_owned(),
        }
    }
}

} // verus!
