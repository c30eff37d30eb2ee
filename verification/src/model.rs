//! An abstract model of the queue's directory tree, and the laws the
//! spooler relies on.
//!
//! On disk a job is a directory named by its identifier, residing in exactly
//! one of `staging`, `ready` or `failed`. Because every transition is a
//! single atomic rename, a job can never be observed split across two
//! locations or half-written; the model therefore is a map from the
//! identifier's bytes to the one place the job occupies, together with the
//! job's payload (the directory contents, abstracted to an arbitrary type,
//! since no transition ever inspects or modifies them).

use vstd::prelude::*;

verus! {

/// The one place a job occupies on disk.
#[derive(Clone, Copy, Debug, PartialEq, Eq, Structural)]
pub enum Location {
    /// The job is being populated and is invisible to consumers.
    Staging,
    /// The job is visible and awaiting execution.
    Ready,
    /// The job's last execution attempt did not succeed.
    Failed,
}

/// `push` creates a fresh, empty job directory in `staging`.
pub open spec fn push_tr<D>(
    m: Map<Seq<u8>, (Location, D)>,
    id: Seq<u8>,
    d: D,
) -> Map<Seq<u8>, (Location, D)> {
    m.insert(id, (Location::Staging, d))
}

/// `persist` renames `staging/<id>` to `ready/<id>`, keeping the contents.
pub open spec fn persist_tr<D>(
    m: Map<Seq<u8>, (Location, D)>,
    id: Seq<u8>,
) -> Map<Seq<u8>, (Location, D)> {
    m.insert(id, (Location::Ready, m[id].1))
}

/// `dismiss` (and the scope-end cleanup of an abandoned stage) deletes
/// `staging/<id>` recursively.
pub open spec fn dismiss_tr<D>(
    m: Map<Seq<u8>, (Location, D)>,
    id: Seq<u8>,
) -> Map<Seq<u8>, (Location, D)> {
    m.remove(id)
}

/// `complete` deletes `ready/<id>` recursively.
pub open spec fn complete_tr<D>(
    m: Map<Seq<u8>, (Location, D)>,
    id: Seq<u8>,
) -> Map<Seq<u8>, (Location, D)> {
    m.remove(id)
}

/// `error` renames `ready/<id>` to `failed/<id>`, keeping the contents.
pub open spec fn error_tr<D>(
    m: Map<Seq<u8>, (Location, D)>,
    id: Seq<u8>,
) -> Map<Seq<u8>, (Location, D)> {
    m.insert(id, (Location::Failed, m[id].1))
}

/// `retry` renames `failed/<id>` back to `ready/<id>`, keeping the contents.
pub open spec fn retry_tr<D>(
    m: Map<Seq<u8>, (Location, D)>,
    id: Seq<u8>,
) -> Map<Seq<u8>, (Location, D)> {
    m.insert(id, (Location::Ready, m[id].1))
}

/// Whether a poll of the `ready` directory can return this job.
pub open spec fn may_poll<D>(m: Map<Seq<u8>, (Location, D)>, id: Seq<u8>) -> bool {
    m.contains_key(id) && m[id].0 == Location::Ready
}

/// After `push` and then `persist`, the job stands in `ready` — and, since a
/// job occupies exactly one location, nowhere else — with the contents it was
/// given, and no other job has moved.
pub proof fn lemma_push_persist_ready<D>(m: Map<Seq<u8>, (Location, D)>, id: Seq<u8>, d: D)
    requires
        !m.contains_key(id),
    ensures
        persist_tr(push_tr(m, id, d), id) == m.insert(id, (Location::Ready, d)),
        may_poll(persist_tr(push_tr(m, id, d), id), id),
        forall|k: Seq<u8>| k != id && m.contains_key(k) ==> {
            &&& #[trigger] persist_tr(push_tr(m, id, d), id).contains_key(k)
            &&& persist_tr(push_tr(m, id, d), id)[k] == m[k]
        },
{
    assert(persist_tr(push_tr(m, id, d), id) =~= m.insert(id, (Location::Ready, d)));
}

/// `error` followed immediately by `retry` restores the tree exactly: the
/// job is back in `ready` under the same identifier, its contents unchanged,
/// and nothing else has moved (round-trip).
pub proof fn lemma_error_retry_round_trip<D>(m: Map<Seq<u8>, (Location, D)>, id: Seq<u8>)
    requires
        m.contains_key(id),
        m[id].0 == Location::Ready,
    ensures
        retry_tr(error_tr(m, id), id) == m,
{
    assert(retry_tr(error_tr(m, id), id) =~= m);
}

/// After `complete`, the job directory is gone: a subsequent poll can never
/// return that identifier again (until a fresh identifier collides, which
/// generation treats as infeasible), and no other job has moved.
pub proof fn lemma_complete_removes<D>(m: Map<Seq<u8>, (Location, D)>, id: Seq<u8>)
    ensures
        !complete_tr(m, id).contains_key(id),
        !may_poll(complete_tr(m, id), id),
        forall|k: Seq<u8>| k != id && m.contains_key(k) ==> {
            &&& #[trigger] complete_tr(m, id).contains_key(k)
            &&& complete_tr(m, id)[k] == m[k]
        },
{
}

/// After `dismiss` — or the cleanup of a stage that was abandoned without a
/// terminal transition — no directory for the job remains anywhere, and no
/// other job has moved. The job never became visible.
pub proof fn lemma_dismiss_removes<D>(m: Map<Seq<u8>, (Location, D)>, id: Seq<u8>)
    ensures
        !dismiss_tr(m, id).contains_key(id),
        forall|k: Seq<u8>| k != id && m.contains_key(k) ==> {
            &&& #[trigger] dismiss_tr(m, id).contains_key(k)
            &&& dismiss_tr(m, id)[k] == m[k]
        },
{
}

} // verus!
