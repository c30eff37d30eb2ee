//! The push command's decision: a staged job becomes visible when the
//! command that populated it succeeded, and is discarded otherwise.
//!
//! Creating the staging directory, running the populating command inside
//! it and performing the returned operation are process concerns outside
//! this crate.

use vstd::prelude::*;

use crate::queue::{base58_of, entry_path, FsOp, Job, NewState, Queue, Stage};

verus! {

/// The push command's arguments.
#[derive(Debug)]
pub struct Args {
    /// The command executed to generate the job's contents.
    pub command: Vec<String>,
}

/// Concludes a push: on success the stage is persisted — the returned
/// rename moves `staging/<id>` into `ready/<id>` and the new ready handle
/// is returned — and on failure it is dismissed, the returned operation
/// deleting the staged directory so the job never becomes visible.
pub fn exec(queue: &Queue, stage: Stage, success: bool) -> (r: (
    Option<Job<NewState>>,
    FsOp,
))
    requires
        stage.wf(),
    ensures
        success ==> (r.1 matches FsOp::Rename { from, to }
            && from@ == stage.dir()@
            && to@ == entry_path(queue.path_ready@, base58_of(stage.id_bytes()))
            && (r.0 matches Some(j) && j.wf() && j.id_bytes() == stage.id_bytes())),
        !success ==> (r.1 matches FsOp::RemoveTree { path } && path@ == stage.dir()@
            && r.0 is None),
{
    if success {
        let (job, op) = stage.persist(queue);
        (Some(job), op)
    } else {
        (None, stage.dismiss())
    }
}

} // verus!
