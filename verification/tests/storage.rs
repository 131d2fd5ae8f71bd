use vmark::storage::{
    after_write_step, failure_message, first_write_step, WriteProgress, WriteStep,
    BACKUP_FILE_NAME, SESSION_FILE_NAME,
};

fn run(session_exists: bool, failing: Option<WriteStep>) -> (Vec<WriteStep>, WriteProgress) {
    let mut steps = Vec::new();
    let mut step = first_write_step();
    loop {
        steps.push(step);
        match after_write_step(step, failing != Some(step), session_exists) {
            WriteProgress::Next(next) => step = next,
            end => return (steps, end),
        }
    }
}

#[test]
fn file_names() {
    assert_eq!(SESSION_FILE_NAME, "session.json");
    assert_eq!(BACKUP_FILE_NAME, "session.prev.json");
}

#[test]
fn a_first_write_makes_no_backup() {
    let (steps, end) = run(false, None);
    assert_eq!(
        steps,
        vec![
            WriteStep::Serialize,
            WriteStep::CreateTemp,
            WriteStep::WriteTemp,
            WriteStep::FlushTemp,
            WriteStep::SyncTemp,
            WriteStep::Persist,
        ]
    );
    assert_eq!(end, WriteProgress::Done);
}

#[test]
fn a_later_write_backs_up_before_it_persists() {
    let (steps, end) = run(true, None);
    assert_eq!(
        steps,
        vec![
            WriteStep::Serialize,
            WriteStep::CreateTemp,
            WriteStep::WriteTemp,
            WriteStep::FlushTemp,
            WriteStep::SyncTemp,
            WriteStep::BackupPrevious,
            WriteStep::Persist,
        ]
    );
    assert_eq!(end, WriteProgress::Done);
}

#[test]
fn a_failed_step_ends_the_write_before_the_rename() {
    let all = [
        WriteStep::Serialize,
        WriteStep::CreateTemp,
        WriteStep::WriteTemp,
        WriteStep::FlushTemp,
        WriteStep::SyncTemp,
        WriteStep::BackupPrevious,
        WriteStep::Persist,
    ];
    for failing in all {
        let (steps, end) = run(true, Some(failing));
        assert_eq!(end, WriteProgress::Failed(failing));
        assert_eq!(*steps.last().unwrap(), failing);
        if failing != WriteStep::Persist {
            assert!(!steps.contains(&WriteStep::Persist));
        }
    }
    let (steps, end) = run(false, Some(WriteStep::BackupPrevious));
    assert_eq!(end, WriteProgress::Done);
    assert!(!steps.contains(&WriteStep::BackupPrevious));
}

#[test]
fn failure_messages() {
    assert_eq!(
        failure_message(WriteStep::Serialize, "bad value"),
        "JSON serialization failed: bad value"
    );
    assert_eq!(
        failure_message(WriteStep::CreateTemp, "denied"),
        "Failed to create temp file: denied"
    );
    assert_eq!(
        failure_message(WriteStep::WriteTemp, "full"),
        "Failed to write temp file: full"
    );
    assert_eq!(
        failure_message(WriteStep::FlushTemp, "x"),
        "Failed to flush temp file: x"
    );
    assert_eq!(
        failure_message(WriteStep::SyncTemp, ""),
        "Failed to sync temp file: "
    );
    assert_eq!(
        failure_message(WriteStep::BackupPrevious, "busy"),
        "Failed to backup session: busy"
    );
    assert_eq!(
        failure_message(WriteStep::Persist, "cross-device"),
        "Failed to persist session: cross-device"
    );
}
