//! Stepwise upgrade of older sessions to the current schema.
//!
//! A session at the current version passes through unchanged. An older one
//! is taken up one version at a time. A session from a newer build, or one
//! that claims the reserved version 0, is refused.

use vstd::prelude::*;

use crate::error::HotExitError;
use crate::session::{SessionData, SessionDataView, SCHEMA_VERSION};

verus! {

/// Oldest schema version that can still be migrated.
pub const MIN_SUPPORTED_VERSION: u32 = 1;

/// The versions that migration accepts: from the oldest supported one up to
/// the current one.
pub open spec fn migratable(version: u32) -> bool {
    MIN_SUPPORTED_VERSION <= version <= SCHEMA_VERSION
}

/// What one migration step makes of a session, or `None` where no step
/// starts at its version.
///
/// The step from 1 to 2 adds the undo and redo histories of a document;
/// they start out empty and have no field of their own in the model, so
/// the step changes the version alone.
pub open spec fn next_version(s: SessionDataView) -> Option<SessionDataView> {
    if s.version == 1 {
        Some(SessionDataView { version: 2, ..s })
    } else {
        None
    }
}

/// What migration makes of a session: the steps applied in turn until the
/// current version is reached.
pub open spec fn migrated(s: SessionDataView) -> Result<SessionDataView, HotExitError>
    decreases SCHEMA_VERSION - s.version,
{
    if !migratable(s.version) {
        Err(HotExitError::UnsupportedVersion { version: s.version })
    } else if s.version == SCHEMA_VERSION {
        Ok(s)
    } else {
        match next_version(s) {
            Some(t) => migrated(t),
            None => Err(HotExitError::MigrationGap { version: s.version }),
        }
    }
}

/// Whether a session of this version can be brought to the current schema.
pub fn can_migrate(version: u32) -> (r: bool)
    ensures
        r == migratable(version),
        r == (MIN_SUPPORTED_VERSION <= version && version <= SCHEMA_VERSION),
{
    if version < MIN_SUPPORTED_VERSION {
        return false;
    }
    if version <= SCHEMA_VERSION {
        return true;
    }
    false
}

/// Whether the session is older than the current schema.
pub fn needs_migration(session: &SessionData) -> (r: bool)
    ensures
        r == (session.version < SCHEMA_VERSION),
{
    session.version < SCHEMA_VERSION
}

fn migrate_v1_to_v2(session: SessionData) -> (r: SessionData)
    requires
        session.version == 1,
    ensures
        next_version(session@) == Some(r@),
        r.version == 2,
{
    let mut session = session;
    session.version = 2;
    session
}

fn migrate_to_next_version(session: SessionData) -> (r: Result<SessionData, HotExitError>)
    ensures
        match r {
            Ok(t) => next_version(session@) == Some(t@),
            Err(e) => next_version(session@) is None && e == (HotExitError::MigrationGap {
                version: session.version,
            }),
        },
{
    if session.version == 1 {
        Ok(migrate_v1_to_v2(session))
    } else {
        Err(HotExitError::MigrationGap { version: session.version })
    }
}

/// Brings a session to the current schema.
///
/// A session that is already current comes back as it went in. One whose
/// version migration does not accept is refused with
/// [`HotExitError::UnsupportedVersion`], and a missing step in the chain
/// with [`HotExitError::MigrationGap`]. No step drops a field: a migrated
/// session differs from the one given in its version alone.
pub fn migrate_session(session: SessionData) -> (r: Result<SessionData, HotExitError>)
    ensures
        match r {
            Ok(t) => migrated(session@) == Ok::<SessionDataView, HotExitError>(t@),
            Err(e) => migrated(session@) == Err::<SessionDataView, HotExitError>(e),
        },
        r is Ok ==> migratable(session.version),
        !migratable(session.version) ==> r == Err::<SessionData, HotExitError>(
            HotExitError::UnsupportedVersion { version: session.version },
        ),
        session.version == SCHEMA_VERSION ==> r == Ok::<SessionData, HotExitError>(session),
        r matches Ok(t) ==> t@ == (SessionDataView { version: SCHEMA_VERSION, ..session@ }),
{
    if !can_migrate(session.version) {
        return Err(HotExitError::UnsupportedVersion { version: session.version });
    }
    if session.version == SCHEMA_VERSION {
        return Ok(session);
    }
    let ghost given = session@;
    let mut session = session;
    while session.version < SCHEMA_VERSION
        invariant
            migratable(session.version),
            migrated(given) == migrated(session@),
            session@ == (SessionDataView { version: session.version, ..given }),
        decreases SCHEMA_VERSION - session.version,
    {
        match migrate_to_next_version(session) {
            Ok(next) => {
                session = next;
            },
            Err(e) => {
                return Err(e);
            },
        }
    }
    Ok(session)
}

} // verus!
