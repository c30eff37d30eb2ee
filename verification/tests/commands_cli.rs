use qd::commands::daemon;
use qd::commands::exec::Command;
use qd::commands::push;
use qd::error::Error;
use qd::queue::{FsOp, Queue, ID};

const ZERO_ID: &str = "1111111111111111";

fn queue() -> Queue {
    Queue::at("/srv/q")
}

#[test]
fn command_keeps_an_explicit_program_and_arguments() {
    let c = Command::try_from(vec!["echo".to_string(), "hi".to_string(), "there".to_string()])
        .expect("two words need no splitting");
    assert_eq!(c.program, "echo");
    assert_eq!(c.arguments, vec!["hi".to_string(), "there".to_string()]);
}

#[test]
fn command_splits_a_single_shell_style_word() {
    let c = Command::try_from(vec!["echo hello world".to_string()])
        .expect("plain words split");
    assert_eq!(c.program, "echo");
    assert_eq!(c.arguments, vec!["hello".to_string(), "world".to_string()]);
}

#[test]
fn command_splitting_honours_quotes() {
    let c = Command::try_from(vec!["run 'one arg'".to_string()]).expect("quoted words split");
    assert_eq!(c.program, "run");
    assert_eq!(c.arguments, vec!["one arg".to_string()]);
}

#[test]
fn command_rejects_an_empty_vector() {
    assert_eq!(Command::try_from(vec![]).err(), Some(Error::EmptyCommand));
}

#[test]
fn command_rejects_a_word_that_splits_to_nothing() {
    assert_eq!(
        Command::try_from(vec!["   ".to_string()]).err(),
        Some(Error::EmptyCommand)
    );
}

#[test]
fn command_rejects_unparsable_shell_syntax() {
    assert_eq!(
        Command::try_from(vec!["\"unclosed".to_string()]).err(),
        Some(Error::UnparsableCommand)
    );
}

#[test]
fn default_command_is_empty() {
    let c = Command::default();
    assert_eq!(c.program, "");
    assert!(c.arguments.is_empty());
}

#[test]
fn push_persists_on_success() {
    let q = queue();
    let (stage, _) = q.push();
    let name = stage.id().as_string();
    let staged_dir = stage.path().clone();
    let (job, op) = push::exec(&q, stage, true);
    assert_eq!(job.expect("persisted").id().as_string(), name);
    assert_eq!(op, FsOp::Rename { from: staged_dir, to: format!("/srv/q/ready/{}", name) });
}

#[test]
fn push_dismisses_on_failure() {
    let q = queue();
    let (stage, _) = q.push();
    let staged_dir = stage.path().clone();
    let (job, op) = push::exec(&q, stage, false);
    assert!(job.is_none());
    assert_eq!(op, FsOp::RemoveTree { path: staged_dir });
}

#[test]
fn run_completes_a_successful_job() {
    let q = queue();
    let job = q.poll(&vec![ZERO_ID.to_string()]).unwrap().unwrap();
    let (op, failed) = daemon::run(&q, job, true, 11);
    assert!(failed.is_none());
    assert_eq!(op, FsOp::RemoveTree { path: format!("/srv/q/ready/{}", ZERO_ID) });
}

#[test]
fn run_fails_a_job_into_failed() {
    let q = queue();
    let job = q.poll(&vec![ZERO_ID.to_string()]).unwrap().unwrap();
    let (op, failed) = daemon::run(&q, job, false, 11);
    let failed = failed.expect("a failed handle comes back");
    assert_eq!(failed.since(), 11);
    assert_eq!(failed.id().as_string(), ZERO_ID);
    assert_eq!(
        op,
        FsOp::Rename {
            from: format!("/srv/q/ready/{}", ZERO_ID),
            to: format!("/srv/q/failed/{}", ZERO_ID),
        }
    );
}

#[test]
fn retry_pass_moves_only_jobs_past_the_interval() {
    let q = queue();
    let stale = ID::random().as_string();
    let recent = ID::random().as_string();
    let entries = vec![
        // Failed exactly one interval ago: on the boundary, left untouched.
        (ZERO_ID.to_string(), 100_u64),
        // Failed more recently: left untouched.
        (recent, 190_u64),
        // Failed long ago: due.
        (stale.clone(), 50_u64),
    ];
    let jobs = q.failed(&entries).expect("names parse");
    let (ops, ready) = daemon::retry_pass(&q, jobs, 200, 100);
    assert_eq!(ready.len(), 1);
    assert_eq!(ready[0].id().as_string(), stale);
    assert_eq!(
        ops,
        vec![FsOp::Rename {
            from: format!("/srv/q/failed/{}", stale),
            to: format!("/srv/q/ready/{}", stale),
        }]
    );
}

#[test]
fn retry_pass_on_nothing_due_is_empty() {
    let q = queue();
    let jobs = q.failed(&vec![(ZERO_ID.to_string(), 150_u64)]).unwrap();
    let (ops, ready) = daemon::retry_pass(&q, jobs, 200, 100);
    assert!(ops.is_empty());
    assert!(ready.is_empty());
}

#[test]
fn scan_scheduling_is_a_plain_deadline() {
    assert!(daemon::scan_due(5, 5));
    assert!(daemon::scan_due(6, 5));
    assert!(!daemon::scan_due(4, 5));
    assert_eq!(daemon::next_deadline(10, 5), 15);
    assert_eq!(daemon::TICK_SECS, 1);
}

#[test]
fn error_messages_name_their_condition() {
    assert_eq!(Error::MalformedIdentifier.message(), "malformed identifier");
    assert_eq!(Error::CorruptEntry.message(), "corrupt queue entry");
    assert_eq!(Error::StorageUnavailable.message(), "storage unavailable");
}
