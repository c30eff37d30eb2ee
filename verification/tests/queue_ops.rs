use qd::error::Error;
use qd::queue::{FsOp, Queue, Stats, ID};

const ZERO_ID: &str = "1111111111111111";

fn queue() -> Queue {
    Queue::at("/var/spool/qd")
}

#[test]
fn queue_derives_spool_paths() {
    let q = queue();
    assert_eq!(q.path, "/var/spool/qd");
    assert_eq!(q.path_staging, "/var/spool/qd/staging");
    assert_eq!(q.path_ready, "/var/spool/qd/ready");
    assert_eq!(q.path_failed, "/var/spool/qd/failed");
}

#[test]
fn init_ops_create_the_three_directories() {
    let q = queue();
    let ops = q.init_ops();
    assert_eq!(
        ops,
        vec![
            FsOp::MakeDir { path: "/var/spool/qd/staging".to_string() },
            FsOp::MakeDir { path: "/var/spool/qd/ready".to_string() },
            FsOp::MakeDir { path: "/var/spool/qd/failed".to_string() },
        ]
    );
}

#[test]
fn id_round_trips_through_its_rendering() {
    let id = ID::random();
    let rendered = id.as_string();
    let parsed = ID::from_str(rendered.as_str()).expect("rendering must parse");
    assert_eq!(parsed.as_string(), rendered);
}

#[test]
fn id_all_zero_bytes_render_as_ones() {
    // 16 zero bytes render as 16 leading-zero markers; this fails if the
    // codec handed its input through unchanged.
    let id = ID::from_str(ZERO_ID).expect("canonical rendering must parse");
    assert_eq!(id.as_string(), ZERO_ID);
}

#[test]
fn id_rejects_malformed_text() {
    // '0', 'O', 'I' and 'l' are outside the base-58 alphabet.
    assert_eq!(ID::from_str("0OIl").err(), Some(Error::MalformedIdentifier));
    assert_eq!(ID::from_str("not an id!").err(), Some(Error::MalformedIdentifier));
    // Valid base-58, but not 16 bytes.
    assert_eq!(ID::from_str("").err(), Some(Error::MalformedIdentifier));
    assert_eq!(ID::from_str("ZiCa").err(), Some(Error::MalformedIdentifier));
}

#[test]
fn push_stages_under_a_fresh_identifier() {
    let q = queue();
    let (stage, op) = q.push();
    let expected = format!("/var/spool/qd/staging/{}", stage.id().as_string());
    assert_eq!(stage.path(), &expected);
    assert_eq!(op, FsOp::MakeDir { path: expected });
}

#[test]
fn persist_renames_staging_into_ready() {
    let q = queue();
    let (stage, _) = q.push();
    let name = stage.id().as_string();
    let staged_dir = stage.path().clone();
    let (job, op) = stage.persist(&q);
    assert_eq!(job.id().as_string(), name);
    assert_eq!(
        op,
        FsOp::Rename {
            from: staged_dir,
            to: format!("/var/spool/qd/ready/{}", name),
        }
    );
}

#[test]
fn dismiss_deletes_the_staged_directory() {
    let q = queue();
    let (stage, _) = q.push();
    let staged_dir = stage.path().clone();
    let op = stage.dismiss();
    assert_eq!(op, FsOp::RemoveTree { path: staged_dir });
}

#[test]
fn poll_on_empty_ready_returns_none_not_an_error() {
    let q = queue();
    let entries: Vec<String> = vec![];
    let polled = q.poll(&entries).expect("an empty listing is not an error");
    assert!(polled.is_none());
}

#[test]
fn poll_returns_the_first_listed_job() {
    let q = queue();
    let entries = vec![ZERO_ID.to_string()];
    let job = q.poll(&entries).expect("listing is well-formed").expect("one entry");
    assert_eq!(job.id().as_string(), ZERO_ID);
    assert_eq!(job.path(&q), format!("/var/spool/qd/ready/{}", ZERO_ID));
}

#[test]
fn poll_surfaces_a_corrupt_entry() {
    let q = queue();
    let entries = vec!["not a valid name".to_string()];
    assert_eq!(q.poll(&entries).err(), Some(Error::CorruptEntry));
}

#[test]
fn error_then_retry_are_inverse_renames() {
    let q = queue();
    let entries = vec![ZERO_ID.to_string()];
    let job = q.poll(&entries).unwrap().unwrap();
    let (failed, to_failed) = job.error(&q, 100);
    assert_eq!(failed.since(), 100);
    let (ready, to_ready) = failed.retry(&q);
    assert_eq!(ready.id().as_string(), ZERO_ID);
    let ready_dir = format!("/var/spool/qd/ready/{}", ZERO_ID);
    let failed_dir = format!("/var/spool/qd/failed/{}", ZERO_ID);
    assert_eq!(to_failed, FsOp::Rename { from: ready_dir.clone(), to: failed_dir.clone() });
    assert_eq!(to_ready, FsOp::Rename { from: failed_dir, to: ready_dir });
}

#[test]
fn refailing_later_carries_a_later_since_stamp() {
    let q = queue();
    let entries = vec![ZERO_ID.to_string()];
    let job = q.poll(&entries).unwrap().unwrap();
    let (failed, _) = job.error(&q, 100);
    let first_since = failed.since();
    let (ready, _) = failed.retry(&q);
    let (refailed, _) = ready.error(&q, 250);
    assert!(first_since <= refailed.since());
    assert_eq!(refailed.since(), 250);
}

#[test]
fn complete_deletes_the_ready_directory() {
    let q = queue();
    let entries = vec![ZERO_ID.to_string()];
    let job = q.poll(&entries).unwrap().unwrap();
    let op = job.complete(&q);
    assert_eq!(op, FsOp::RemoveTree { path: format!("/var/spool/qd/ready/{}", ZERO_ID) });
}

#[test]
fn failed_listing_keeps_names_and_timestamps() {
    let q = queue();
    let other = ID::random().as_string();
    let entries = vec![(ZERO_ID.to_string(), 40_u64), (other.clone(), 90_u64)];
    let jobs = q.failed(&entries).expect("both names parse");
    assert_eq!(jobs.len(), 2);
    assert_eq!(jobs[0].id().as_string(), ZERO_ID);
    assert_eq!(jobs[0].since(), 40);
    assert_eq!(jobs[1].id().as_string(), other);
    assert_eq!(jobs[1].since(), 90);
}

#[test]
fn failed_listing_surfaces_a_corrupt_entry() {
    let q = queue();
    let entries = vec![(ZERO_ID.to_string(), 40_u64), ("#?".to_string(), 90_u64)];
    assert_eq!(q.failed(&entries).err(), Some(Error::CorruptEntry));
}

#[test]
fn stats_count_both_visible_directories() {
    let q = queue();
    let ready = vec!["a".to_string(), "b".to_string(), "c".to_string()];
    let failed = vec!["d".to_string()];
    let stats = q.stats(&ready, &failed);
    assert_eq!(stats, Stats { queued: 3, failed: 1 });
}

#[test]
fn state_transitions_are_moves_not_mutations() {
    // A handle is consumed by its transition and a handle of the other
    // state is returned: `error` exists only on ready handles and `retry`
    // only on failed ones, so erroring an already-failed job (or retrying
    // a ready one) is not expressible — there is no runtime check to test,
    // only the one lawful cycle.
    let q = queue();
    let job = q.poll(&vec![ZERO_ID.to_string()]).unwrap().unwrap();
    let (failed, _) = job.error(&q, 7);
    let (ready, _) = failed.retry(&q);
    let (failed_again, _) = ready.error(&q, 9);
    assert_eq!(failed_again.since(), 9);
}
