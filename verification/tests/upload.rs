use s3_file_manager::error::{Failure, InvalidPath, StorageError, UsageError};
use s3_file_manager::upload::{
    upload_start, upload_step, upload_task, UploadEvent, UploadState, UploadTask,
};

/// What a run through a batch amounted to.
struct Run {
    state: UploadState,
    attempted: Vec<String>,
    printed: Vec<String>,
}

/// Drives the machine the way a caller does: it walks `matches`, and for
/// each upload the machine asks for, takes the next of `outcomes`.
fn drive(bucket: &str, matches: Vec<UploadEvent>, outcomes: Vec<Result<(), StorageError>>) -> Run {
    let mut matches = matches.into_iter();
    let mut outcomes = outcomes.into_iter();
    let mut run = Run {
        state: upload_start(),
        attempted: Vec::new(),
        printed: Vec::new(),
    };
    loop {
        let event = match &run.state {
            UploadState::Scanning => matches.next().unwrap_or(UploadEvent::Exhausted),
            UploadState::Uploading(task) => {
                run.attempted.push(task.key.clone());
                match outcomes.next().unwrap() {
                    Ok(()) => UploadEvent::PutSucceeded,
                    Err(e) => UploadEvent::PutFailed(e),
                }
            }
            _ => return run,
        };
        let (state, line) = upload_step(bucket, run.state, event);
        run.state = state;
        run.printed.extend(line);
    }
}

fn matched(path: &str) -> UploadEvent {
    UploadEvent::Matched(path.to_string())
}

fn task(path: &str, key: &str) -> UploadTask {
    UploadTask {
        local_path: path.to_string(),
        key: key.to_string(),
    }
}

#[test]
fn task_is_keyed_by_the_file_name() {
    assert_eq!(
        upload_task("sub/b.png".to_string()),
        Ok(task("sub/b.png", "b.png"))
    );
    assert_eq!(upload_task("a.png".to_string()), Ok(task("a.png", "a.png")));
}

#[test]
fn task_needs_a_file_name() {
    assert_eq!(upload_task("sub/..".to_string()), Err(InvalidPath::NoFileName));
    assert_eq!(upload_task(String::new()), Err(InvalidPath::NoFileName));
}

#[test]
fn a_run_starts_scanning() {
    assert_eq!(upload_start(), UploadState::Scanning);
}

#[test]
fn no_match_finishes_without_upload() {
    let run = drive("photos", vec![], vec![]);
    assert_eq!(run.state, UploadState::Finished);
    assert!(run.attempted.is_empty());
    assert!(run.printed.is_empty());
}

#[test]
fn exhausted_finishes_in_one_step() {
    assert_eq!(
        upload_step("photos", UploadState::Scanning, UploadEvent::Exhausted),
        (UploadState::Finished, None)
    );
}

#[test]
fn keys_are_file_names() {
    let run = drive(
        "photos",
        vec![matched("a.png"), matched("sub/b.png")],
        vec![Ok(()), Ok(())],
    );
    assert_eq!(run.state, UploadState::Finished);
    assert_eq!(run.attempted, vec!["a.png".to_string(), "b.png".to_string()]);
    assert_eq!(
        run.printed,
        vec![
            "File uploaded successfully to photos/a.png".to_string(),
            "File uploaded successfully to photos/b.png".to_string(),
        ]
    );
}

#[test]
fn a_match_starts_its_upload() {
    assert_eq!(
        upload_step("photos", UploadState::Scanning, matched("sub/b.png")),
        (UploadState::Uploading(task("sub/b.png", "b.png")), None)
    );
}

#[test]
fn equal_file_names_give_equal_keys() {
    let run = drive(
        "photos",
        vec![matched("x/a.png"), matched("y/a.png")],
        vec![Ok(()), Ok(())],
    );
    assert_eq!(run.state, UploadState::Finished);
    assert_eq!(run.attempted, vec!["a.png".to_string(), "a.png".to_string()]);
}

#[test]
fn a_failed_put_ends_the_run() {
    let cause = StorageError::RemoteFailure("Access Denied".to_string());
    let run = drive(
        "photos",
        vec![matched("1.png"), matched("2.png"), matched("3.png")],
        vec![Ok(()), Err(cause.clone()), Ok(())],
    );
    assert_eq!(run.state, UploadState::Failed(Failure::Storage(cause)));
    assert_eq!(run.attempted, vec!["1.png".to_string(), "2.png".to_string()]);
    assert_eq!(
        run.printed,
        vec!["File uploaded successfully to photos/1.png".to_string()]
    );
}

#[test]
fn an_unreadable_file_ends_the_run() {
    let cause = StorageError::IoFailure("No such file or directory".to_string());
    let run = drive(
        "photos",
        vec![matched("gone.png"), matched("here.png")],
        vec![Err(cause.clone())],
    );
    assert_eq!(run.state, UploadState::Failed(Failure::Storage(cause)));
    assert_eq!(run.attempted, vec!["gone.png".to_string()]);
    assert!(run.printed.is_empty());
}

#[test]
fn an_unreadable_candidate_is_passed_over() {
    let run = drive(
        "photos",
        vec![
            matched("a.png"),
            UploadEvent::Unreadable("Permission denied".to_string()),
            matched("b.png"),
        ],
        vec![Ok(()), Ok(())],
    );
    assert_eq!(run.state, UploadState::Finished);
    assert_eq!(run.attempted, vec!["a.png".to_string(), "b.png".to_string()]);
    assert_eq!(
        run.printed,
        vec![
            "File uploaded successfully to photos/a.png".to_string(),
            "Error reading file pattern: Permission denied".to_string(),
            "File uploaded successfully to photos/b.png".to_string(),
        ]
    );
}

#[test]
fn unreadable_candidates_alone_start_no_upload() {
    let run = drive(
        "photos",
        vec![
            UploadEvent::Unreadable("first".to_string()),
            UploadEvent::Unreadable("second".to_string()),
        ],
        vec![],
    );
    assert_eq!(run.state, UploadState::Finished);
    assert!(run.attempted.is_empty());
    assert_eq!(
        run.printed,
        vec![
            "Error reading file pattern: first".to_string(),
            "Error reading file pattern: second".to_string(),
        ]
    );
}

#[test]
fn a_path_that_is_no_text_ends_the_run() {
    let run = drive(
        "photos",
        vec![matched("a.png"), UploadEvent::MatchedNonText, matched("b.png")],
        vec![Ok(()), Ok(())],
    );
    assert_eq!(
        run.state,
        UploadState::Failed(Failure::InvalidPath(InvalidPath::NotText))
    );
    assert_eq!(run.attempted, vec!["a.png".to_string()]);
}

#[test]
fn a_path_without_file_name_ends_the_run() {
    let run = drive(
        "photos",
        vec![matched("a/.."), matched("b.png")],
        vec![Ok(())],
    );
    assert_eq!(
        run.state,
        UploadState::Failed(Failure::InvalidPath(InvalidPath::NoFileName))
    );
    assert!(run.attempted.is_empty());
}

#[test]
fn a_rejected_pattern_ends_the_run() {
    let reason = "Pattern syntax error near position 2: invalid range pattern";
    let run = drive(
        "photos",
        vec![UploadEvent::PatternRejected(reason.to_string())],
        vec![],
    );
    assert_eq!(
        run.state,
        UploadState::Failed(Failure::Usage(UsageError::MalformedPattern(
            reason.to_string()
        )))
    );
    assert!(run.attempted.is_empty());
}

#[test]
fn an_ended_run_takes_no_more_events() {
    let failed = UploadState::Failed(Failure::Storage(StorageError::RemoteFailure(
        "down".to_string(),
    )));
    for event in [
        matched("next.png"),
        UploadEvent::Exhausted,
        UploadEvent::PutSucceeded,
        UploadEvent::Unreadable("x".to_string()),
    ] {
        assert_eq!(
            upload_step("photos", failed.clone(), event.clone()),
            (failed.clone(), None)
        );
        assert_eq!(
            upload_step("photos", UploadState::Finished, event),
            (UploadState::Finished, None)
        );
    }
}

#[test]
fn events_out_of_turn_change_nothing() {
    assert_eq!(
        upload_step("photos", UploadState::Scanning, UploadEvent::PutSucceeded),
        (UploadState::Scanning, None)
    );
    assert_eq!(
        upload_step(
            "photos",
            UploadState::Scanning,
            UploadEvent::PutFailed(StorageError::RemoteFailure("late".to_string()))
        ),
        (UploadState::Scanning, None)
    );
    let busy = UploadState::Uploading(task("a.png", "a.png"));
    for event in [
        matched("b.png"),
        UploadEvent::MatchedNonText,
        UploadEvent::Exhausted,
        UploadEvent::Unreadable("x".to_string()),
        UploadEvent::PatternRejected("y".to_string()),
    ] {
        assert_eq!(upload_step("photos", busy.clone(), event), (busy.clone(), None));
    }
}
