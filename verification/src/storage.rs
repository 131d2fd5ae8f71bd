//! The order of the steps by which a session is written to disk.
//!
//! The host performs the steps; this module decides which step comes next
//! and what a failed step means. The new session is written to a temporary
//! file beside the target and made durable there. Only then is an existing
//! session copied to the backup, and last of all the temporary file is
//! renamed onto the target. The rename is the one step that changes what a
//! reader of the target sees.

use vstd::prelude::*;
use vstd::string::StringExecFns;

verus! {

/// Name of the session file in the application's data directory.
pub const SESSION_FILE_NAME: &'static str = "session.json";

/// Name of the backup that holds the session written before the current one.
pub const BACKUP_FILE_NAME: &'static str = "session.prev.json";

/// One step of an atomic write.
#[derive(Debug, Clone, Copy, PartialEq, Eq, Structural)]
pub enum WriteStep {
    /// Turn the session into text.
    Serialize,
    /// Create a temporary file in the directory of the target.
    CreateTemp,
    /// Write the text to the temporary file.
    WriteTemp,
    /// Flush what is buffered.
    FlushTemp,
    /// Force the temporary file to disk.
    SyncTemp,
    /// Copy the existing session to the backup.
    BackupPrevious,
    /// Rename the temporary file onto the target.
    Persist,
}

/// Where a write stands after a step.
#[derive(Debug, Clone, Copy, PartialEq, Eq, Structural)]
pub enum WriteProgress {
    /// Perform this step next.
    Next(WriteStep),
    /// The session is written.
    Done,
    /// This step failed; the write is given up and the target is as it was.
    Failed(WriteStep),
}

/// The step that follows `step` when it has succeeded, or `None` after the
/// last. The backup is made only where a session exists already.
pub open spec fn following_step(step: WriteStep, session_exists: bool) -> Option<WriteStep> {
    match step {
        WriteStep::Serialize => Some(WriteStep::CreateTemp),
        WriteStep::CreateTemp => Some(WriteStep::WriteTemp),
        WriteStep::WriteTemp => Some(WriteStep::FlushTemp),
        WriteStep::FlushTemp => Some(WriteStep::SyncTemp),
        WriteStep::SyncTemp => if session_exists {
            Some(WriteStep::BackupPrevious)
        } else {
            Some(WriteStep::Persist)
        },
        WriteStep::BackupPrevious => Some(WriteStep::Persist),
        WriteStep::Persist => None,
    }
}

/// Where the write stands after `step` has succeeded or failed.
pub open spec fn progress_after(step: WriteStep, succeeded: bool, session_exists: bool) -> WriteProgress {
    if !succeeded {
        WriteProgress::Failed(step)
    } else {
        match following_step(step, session_exists) {
            Some(next) => WriteProgress::Next(next),
            None => WriteProgress::Done,
        }
    }
}

/// The step with which every write begins.
pub fn first_write_step() -> (step: WriteStep)
    ensures
        step == WriteStep::Serialize,
{
    WriteStep::Serialize
}

/// Decides how a write goes on after a step.
///
/// `session_exists` says whether the target exists; it is looked at once,
/// after the temporary file has been made durable.
pub fn after_write_step(step: WriteStep, succeeded: bool, session_exists: bool) -> (progress:
    WriteProgress)
    ensures
        progress == progress_after(step, succeeded, session_exists),
{
    if !succeeded {
        return WriteProgress::Failed(step);
    }
    match step {
        WriteStep::Serialize => WriteProgress::Next(WriteStep::CreateTemp),
        WriteStep::CreateTemp => WriteProgress::Next(WriteStep::WriteTemp),
        WriteStep::WriteTemp => WriteProgress::Next(WriteStep::FlushTemp),
        WriteStep::FlushTemp => WriteProgress::Next(WriteStep::SyncTemp),
        WriteStep::SyncTemp => if session_exists {
            WriteProgress::Next(WriteStep::BackupPrevious)
        } else {
            WriteProgress::Next(WriteStep::Persist)
        },
        WriteStep::BackupPrevious => WriteProgress::Next(WriteStep::Persist),
        WriteStep::Persist => WriteProgress::Done,
    }
}

/// The words that introduce the failure of a step.
pub open spec fn failure_prefix(step: WriteStep) -> Seq<char> {
    match step {
        WriteStep::Serialize => "JSON serialization failed: "@,
        WriteStep::CreateTemp => "Failed to create temp file: "@,
        WriteStep::WriteTemp => "Failed to write temp file: "@,
        WriteStep::FlushTemp => "Failed to flush temp file: "@,
        WriteStep::SyncTemp => "Failed to sync temp file: "@,
        WriteStep::BackupPrevious => "Failed to backup session: "@,
        WriteStep::Persist => "Failed to persist session: "@,
    }
}

/// The message for a failed step: what failed, then the cause as the
/// system reported it.
pub fn failure_message(step: WriteStep, cause: &str) -> (message: String)
    ensures
        message@ == failure_prefix(step) + cause@,
{
    let mut message = match step {
        WriteStep::Serialize => "JSON serialization failed: ".to_owned(),
        WriteStep::CreateTemp => "Failed to create temp file: ".to_owned(),
        WriteStep::WriteTemp => "Failed to write temp file: ".to_owned(),
        WriteStep::FlushTemp => "Failed to flush temp file: ".to_owned(),
        WriteStep::SyncTemp => "Failed to sync temp file: ".to_owned(),
        WriteStep::BackupPrevious => "Failed to backup session: ".to_owned(),
        WriteStep::Persist => "Failed to persist session: ".to_owned(),
    };
    message.append(cause);
    message
}

/// What the files hold, as far as a write is concerned.
pub struct StoreModel {
    /// The text of the session file, if it exists.
    pub session: Option<Seq<char>>,
    /// The text of the backup, if it exists.
    pub backup: Option<Seq<char>>,
    /// The text of the temporary file, if it exists.
    pub temp: Option<Seq<char>>,
    /// Whether the temporary file has reached the disk.
    pub temp_durable: bool,
}

/// What a successful step does to the files when `text` is being written.
pub open spec fn step_effect(store: StoreModel, step: WriteStep, text: Seq<char>) -> StoreModel {
    match step {
        WriteStep::Serialize => store,
        WriteStep::CreateTemp => StoreModel { temp: Some(Seq::empty()), temp_durable: false, ..store },
        WriteStep::WriteTemp => StoreModel { temp: Some(text), ..store },
        WriteStep::FlushTemp => store,
        WriteStep::SyncTemp => StoreModel { temp_durable: true, ..store },
        WriteStep::BackupPrevious => StoreModel { backup: store.session, ..store },
        WriteStep::Persist => StoreModel { session: store.temp, temp: None, ..store },
    }
}

/// The files after a write that starts at `step` and goes on as
/// [`progress_after`] says. `failing` names the step that fails, if one
/// does; a failed step leaves the files as they are, and ends the write.
pub open spec fn store_after_write(
    store: StoreModel,
    step: WriteStep,
    text: Seq<char>,
    failing: Option<WriteStep>,
) -> StoreModel
    decreases steps_left(step),
{
    if failing == Some(step) {
        store
    } else {
        let done = step_effect(store, step, text);
        match following_step(step, store.session is Some) {
            Some(next) => store_after_write(done, next, text, failing),
            None => done,
        }
    }
}

/// How many steps can still follow `step`.
pub open spec fn steps_left(step: WriteStep) -> nat {
    match step {
        WriteStep::Serialize => 6,
        WriteStep::CreateTemp => 5,
        WriteStep::WriteTemp => 4,
        WriteStep::FlushTemp => 3,
        WriteStep::SyncTemp => 2,
        WriteStep::BackupPrevious => 1,
        WriteStep::Persist => 0,
    }
}

/// A write in which no step fails leaves the new text in the session file,
/// and the session that was there before, if there was one, in the backup.
pub proof fn lemma_write_succeeds(store: StoreModel, text: Seq<char>)
    ensures
        ({
            let after = store_after_write(store, WriteStep::Serialize, text, None);
            &&& after.session == Some(text)
            &&& after.backup == if store.session is Some {
                store.session
            } else {
                store.backup
            }
            &&& after.temp is None
        }),
{
    reveal_with_fuel(store_after_write, 8);
}

/// A write in which a step fails leaves the session file as it was: no
/// partly written session is ever seen under the target's name.
///
/// The step that fails must be one that the write takes: the backup is
/// taken only where a session exists.
pub proof fn lemma_failed_write_is_invisible(store: StoreModel, text: Seq<char>, failing: WriteStep)
    requires
        failing == WriteStep::BackupPrevious ==> store.session is Some,
    ensures
        store_after_write(store, WriteStep::Serialize, text, Some(failing)).session
            == store.session,
{
    reveal_with_fuel(store_after_write, 8);
}

/// The rename is reached only with the whole text in the temporary file
/// and that file on disk.
pub proof fn lemma_persist_follows_sync(store: StoreModel, text: Seq<char>)
    ensures
        ({
            let before_persist = store_after_write(
                store,
                WriteStep::Serialize,
                text,
                Some(WriteStep::Persist),
            );
            before_persist.temp == Some(text) && before_persist.temp_durable
        }),
{
    reveal_with_fuel(store_after_write, 8);
}

} // verus!
