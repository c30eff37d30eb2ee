//! The job queue: identifiers, the three spool directories, and the typed
//! state machine of handles over them.
//!
//! Every operation that changes the tree is returned as an [`FsOp`] value
//! naming the exact directories involved; the surrounding process performs
//! it. Directory renames are atomic on one filesystem, which is the sole
//! consistency primitive the design relies on (see [`crate::model`]).

use vstd::prelude::*;
use vstd::string::{StrSliceExecFns, StringExecFns};

use core::marker::PhantomData;

use base58::{FromBase58, ToBase58};

use crate::error::Error;

verus! {

/// What `to_base58` returns for a byte string: the canonical base-58
/// rendering, a function of the bytes alone.
pub uninterp spec fn base58_of(b: Seq<u8>) -> Seq<char>;

/// Relies on base58's `ToBase58` for `[u8]`: the canonical base-58 rendering
/// of the bytes. The crate documents support for inputs up to 128 bytes. The
/// rendering spends at most one character per 128/138 byte of input plus one,
/// and one per leading zero byte, so it never exceeds twice the byte length
/// plus one.
#[verifier::external_body]
fn base58_encode(b: &Vec<u8>) -> (r: String)
    requires
        b@.len() <= 128,
    ensures
        r@ == base58_of(b@),
        r@.len() <= 2 * b@.len() + 1,
{
    b.as_slice().to_base58()
}

/// Relies on base58's `FromBase58` for `str`: decoding succeeds exactly on
/// canonical renderings and returns the bytes they render, so a successful
/// decode re-encodes to the input, and every 16-byte value's rendering
/// decodes back to it. Inputs beyond 132 characters are outside the
/// decoder's supported range and are left out here.
#[verifier::external_body]
fn base58_decode(s: &str) -> (r: Option<Vec<u8>>)
    requires
        s@.len() <= 132,
    ensures
        r matches Some(d) ==> s@ == base58_of(d@),
        r is None ==> forall|b: Seq<u8>| b.len() == 16 ==> s@ != base58_of(b),
        r matches Some(d) ==> forall|b: Seq<u8>|
            b.len() == 16 && s@ == base58_of(b) ==> d@ == b,
{
    s.from_base58().ok()
}

/// Relies on uuid's `Uuid::new_v4`: a fresh random 128-bit (16-byte) value.
/// Nothing but its length can be promised of a random value.
#[verifier::external_body]
fn fresh_id_bytes() -> (r: Vec<u8>)
    ensures
        r@.len() == 16,
{
    uuid::Uuid::new_v4().as_bytes().to_vec()
}

/// Whether `s` is the rendering of the 16-byte identifier value `b`.
///
/// The final conjunct mirrors the decoder's supported range; it excludes no
/// genuine rendering, since a 16-byte value renders to at most 33 characters.
pub open spec fn is_id_encoding(s: Seq<char>, b: Seq<u8>) -> bool {
    &&& b.len() == 16
    &&& s == base58_of(b)
    &&& s.len() <= 132
}

/// Whether `s` is the rendering of any identifier.
pub open spec fn parsable(s: Seq<char>) -> bool {
    exists|b: Seq<u8>| is_id_encoding(s, b)
}

/// A globally unique, filesystem-safe token naming a job: a 128-bit random
/// value, rendered as compact base-58 text for use as a directory name.
#[derive(Debug)]
pub struct ID {
    bytes: Vec<u8>,
}

impl View for ID {
    type V = Seq<u8>;

    closed spec fn view(&self) -> Seq<u8> {
        self.bytes@
    }
}

impl ID {
    /// An identifier is always exactly 16 bytes.
    pub open spec fn wf(&self) -> bool {
        self@.len() == 16
    }

    /// A fresh random identifier. Two calls never collide in practice;
    /// collision is treated as infeasible, not handled.
    pub fn random() -> (r: ID)
        ensures
            r.wf(),
    {
        ID { bytes: fresh_id_bytes() }
    }

    /// The canonical string form, stable and usable as a directory name.
    pub fn as_string(&self) -> (r: String)
        requires
            self.wf(),
        ensures
            r@ == base58_of(self@),
            is_id_encoding(r@, self@),
    {
        base58_encode(&self.bytes)
    }

    /// Parses rendered text back into an identifier. Malformed text — any
    /// text that is not the rendering of a 16-byte value — fails explicitly
    /// with `MalformedIdentifier` rather than being silently truncated.
    pub fn from_str(s: &str) -> (r: Result<ID, Error>)
        ensures
            r matches Ok(id) ==> id.wf() && is_id_encoding(s@, id@),
            forall|b: Seq<u8>| is_id_encoding(s@, b) ==> (r matches Ok(id) && id@ == b),
            r matches Err(e) ==> e == Error::MalformedIdentifier,
    {
        if s.unicode_len() > 132 {
            return Err(Error::MalformedIdentifier);
        }
        match base58_decode(s) {
            Some(bytes) => {
                if bytes.len() == 16 {
                    Ok(ID { bytes })
                } else {
                    Err(Error::MalformedIdentifier)
                }
            },
            None => Err(Error::MalformedIdentifier),
        }
    }
}

/// The path of the entry `name` inside the directory `dir`.
pub open spec fn entry_path(dir: Seq<char>, name: Seq<char>) -> Seq<char> {
    dir + "/"@ + name
}

/// Joins a directory path and an entry name.
fn entry_string(dir: &String, name: &str) -> (r: String)
    ensures
        r@ == entry_path(dir@, name@),
{
    let mut s = dir.as_str().to_owned();
    s.append("/");
    s.append(name);
    s
}

/// One directory operation for the surrounding process to perform against
/// the filesystem. Renames are atomic within one filesystem; the three queue
/// subdirectories must be co-located on one volume so that a rename is never
/// a copy-and-delete.
#[derive(Debug, PartialEq, Eq)]
pub enum FsOp {
    /// Create the directory (its parents are expected to exist).
    MakeDir { path: String },
    /// Atomically rename the directory `from` to `to`.
    Rename { from: String, to: String },
    /// Recursively delete the directory.
    RemoveTree { path: String },
}

/// Counts of entries in `ready` and `failed`: a cheap point-in-time
/// snapshot, not transactionally consistent with concurrent mutation.
#[derive(Clone, Copy, Debug, PartialEq, Eq, Structural)]
pub struct Stats {
    pub queued: usize,
    pub failed: usize,
}

/// The queue's immutable configuration: a root path and the three derived
/// spool directories.
#[derive(Debug)]
pub struct Queue {
    pub path: String,
    pub path_staging: String,
    pub path_ready: String,
    pub path_failed: String,
}

/// Marks handles that stand for a job directory present on disk.
pub trait Staged {}

/// A write-in-progress job: a directory that exists in `staging` and is not
/// yet visible to consumers. Either committed by [`Stage::persist`] or
/// discarded by [`Stage::dismiss`]; both consume the handle, so no further
/// transition can be expressed on it afterwards.
#[derive(Debug)]
pub struct Stage {
    id: ID,
    dir: String,
}

/// A type-level job state: the directory a job handle's subject lives in.
/// Making the state a type rather than a runtime field is what renders
/// "retry a ready job" or "complete a failed job" inexpressible.
pub trait State {
    /// The queue subdirectory that holds jobs in this state.
    spec fn dir_spec(q: Queue) -> Seq<char>;

    /// The queue subdirectory that holds jobs in this state.
    fn path(q: &Queue) -> (r: &String)
        ensures
            r@ == Self::dir_spec(*q),
    ;
}

/// The state of a job awaiting execution: it lives in `ready`.
#[derive(Debug)]
pub struct NewState {}

/// The state of a job whose last execution attempt failed: it lives in
/// `failed`, awaiting retry.
#[derive(Debug)]
pub struct ErrState {}

impl State for NewState {
    open spec fn dir_spec(q: Queue) -> Seq<char> {
        q.path_ready@
    }

    fn path(q: &Queue) -> (r: &String) {
        &q.path_ready
    }
}

impl State for ErrState {
    open spec fn dir_spec(q: Queue) -> Seq<char> {
        q.path_failed@
    }

    fn path(q: &Queue) -> (r: &String) {
        &q.path_failed
    }
}

/// A handle to a job directory that already lives in `ready` or `failed`.
/// Transitions consume the handle and return one of the other state — a
/// move, never a mutation in place — so a stale handle cannot be used again.
#[derive(Debug)]
pub struct Job<S: State> {
    id: ID,
    since: u64,
    _state: PhantomData<S>,
}

impl Queue {
    /// A queue rooted at `path`, with the three spool directories derived
    /// from it. The directories themselves are created by performing
    /// [`Queue::init_ops`]; creation is idempotent, so opening a root that
    /// a daemon already runs against is safe.
    pub fn at(path: &str) -> (q: Queue)
        ensures
            q.path@ == path@,
            q.path_staging@ == entry_path(path@, "staging"@),
            q.path_ready@ == entry_path(path@, "ready"@),
            q.path_failed@ == entry_path(path@, "failed"@),
    {
        let root = path.to_owned();
        let path_staging = entry_string(&root, "staging");
        let path_ready = entry_string(&root, "ready");
        let path_failed = entry_string(&root, "failed");
        Queue { path: root, path_staging, path_ready, path_failed }
    }

    /// The directory creations that make the queue operable: one `MakeDir`
    /// for each spool directory.
    pub fn init_ops(&self) -> (r: Vec<FsOp>)
        ensures
            r@.len() == 3,
            r@[0] matches FsOp::MakeDir { path } && path@ == self.path_staging@,
            r@[1] matches FsOp::MakeDir { path } && path@ == self.path_ready@,
            r@[2] matches FsOp::MakeDir { path } && path@ == self.path_failed@,
    {
        let mut ops: Vec<FsOp> = Vec::new();
        ops.push(FsOp::MakeDir { path: self.path_staging.clone() });
        ops.push(FsOp::MakeDir { path: self.path_ready.clone() });
        ops.push(FsOp::MakeDir { path: self.path_failed.clone() });
        ops
    }

    /// Allocates a fresh identifier and stages a new job: the returned
    /// operation creates `staging/<id>` as an empty directory, and the
    /// returned handle owns that directory until committed or discarded.
    pub fn push(&self) -> (r: (Stage, FsOp))
        ensures
            r.0.wf(),
            r.0.dir()@ == entry_path(self.path_staging@, base58_of(r.0.id_bytes())),
            r.1 matches FsOp::MakeDir { path } && path@ == r.0.dir()@,
    {
        let id = ID::random();
        let name = id.as_string();
        let dir = entry_string(&self.path_staging, name.as_str());
        let op = FsOp::MakeDir { path: dir.clone() };
        (Stage { id, dir }, op)
    }

    /// At most one ready job, from the listing of the `ready` directory the
    /// caller obtained: none if the listing is empty, the job named by the
    /// first entry otherwise. Selection order among multiple ready jobs is
    /// whatever order the listing has; callers must not assume FIFO. A first
    /// entry whose name does not parse is surfaced as `CorruptEntry` —
    /// foreign or corrupt data is reported, never silently skipped or
    /// deleted.
    pub fn poll(&self, entries: &Vec<String>) -> (r: Result<Option<Job<NewState>>, Error>)
        ensures
            entries@.len() == 0 ==> r matches Ok(None),
            entries@.len() > 0 ==> match r {
                Ok(Some(j)) => j.wf() && is_id_encoding(entries@[0]@, j.id_bytes()),
                Ok(None) => false,
                Err(e) => e == Error::CorruptEntry && !parsable(entries@[0]@),
            },
            entries@.len() > 0 ==> forall|b: Seq<u8>|
                is_id_encoding(entries@[0]@, b) ==> (r matches Ok(Some(j)) && j.id_bytes() == b),
    {
        if entries.len() == 0 {
            Ok(None)
        } else {
            match Job::<NewState>::from_entry(entries[0].as_str(), 0) {
                Ok(j) => Ok(Some(j)),
                Err(e) => Err(e),
            }
        }
    }

    /// All failed jobs, from the listing of the `failed` directory the
    /// caller obtained: each entry a directory name and the time (seconds
    /// since the epoch) it entered `failed`, read from the directory's own
    /// metadata. An entry whose name does not parse is surfaced as
    /// `CorruptEntry`, as in [`Queue::poll`].
    pub fn failed(&self, entries: &Vec<(String, u64)>) -> (r: Result<Vec<Job<ErrState>>, Error>)
        ensures
            r matches Ok(v) ==> v@.len() == entries@.len() && forall|k: int|
                0 <= k < entries@.len() ==> {
                    &&& (#[trigger] v@[k]).wf()
                    &&& is_id_encoding(entries@[k].0@, v@[k].id_bytes())
                    &&& v@[k].since_time() == entries@[k].1
                },
            r matches Err(e) ==> e == Error::CorruptEntry && exists|k: int|
                0 <= k < entries@.len() && !parsable(#[trigger] entries@[k].0@),
            (forall|k: int| 0 <= k < entries@.len() ==> parsable(#[trigger] entries@[k].0@))
                ==> r is Ok,
    {
        let mut jobs: Vec<Job<ErrState>> = Vec::new();
        let mut i: usize = 0;
        while i < entries.len()
            invariant
                i <= entries@.len(),
                jobs@.len() == i,
                forall|k: int| 0 <= k < i as int ==> {
                    &&& (#[trigger] jobs@[k]).wf()
                    &&& is_id_encoding(entries@[k].0@, jobs@[k].id_bytes())
                    &&& jobs@[k].since_time() == entries@[k].1
                },
            decreases entries@.len() - i,
        {
            let name = &entries[i].0;
            let since = entries[i].1;
            match Job::<ErrState>::from_entry(name.as_str(), since) {
                Ok(j) => jobs.push(j),
                Err(_) => {
                    return Err(Error::CorruptEntry);
                },
            }
            i += 1;
        }
        Ok(jobs)
    }

    /// Counts of the two visible directories, from the listings the caller
    /// obtained: entry counts as they stand, a reporting query only.
    pub fn stats(&self, ready_entries: &Vec<String>, failed_entries: &Vec<String>) -> (r: Stats)
        ensures
            r.queued == ready_entries@.len(),
            r.failed == failed_entries@.len(),
    {
        Stats { queued: ready_entries.len(), failed: failed_entries.len() }
    }
}

impl Stage {
    /// The identifier's bytes, for contracts.
    pub closed spec fn id_bytes(&self) -> Seq<u8> {
        self.id@
    }

    /// The staged directory's path, for contracts.
    pub closed spec fn dir(&self) -> String {
        self.dir
    }

    /// A stage always carries a well-formed identifier.
    pub open spec fn wf(&self) -> bool {
        self.id_bytes().len() == 16
    }

    /// The job's identifier.
    pub fn id(&self) -> (r: &ID)
        ensures
            r@ == self.id_bytes(),
    {
        &self.id
    }

    /// The staged directory, for the producer to populate. A consumed stage
    /// cannot be asked for its path: `persist` and `dismiss` take the handle
    /// by value.
    pub fn path(&self) -> (r: &String)
        ensures
            r@ == self.dir()@,
    {
        &self.dir
    }

    /// Commits the stage: the returned rename atomically moves the directory
    /// from `staging/<id>` to `ready/<id>`, making the job visible. Partial
    /// writes before this point are invisible to consumers, who never look
    /// inside `staging`.
    pub fn persist(self, queue: &Queue) -> (r: (Job<NewState>, FsOp))
        requires
            self.wf(),
        ensures
            r.0.wf(),
            r.0.id_bytes() == self.id_bytes(),
            r.1 matches FsOp::Rename { from, to }
                && from@ == self.dir()@
                && to@ == entry_path(queue.path_ready@, base58_of(self.id_bytes())),
    {
        let name = self.id.as_string();
        let to = entry_string(&queue.path_ready, name.as_str());
        let job = Job { id: self.id, since: 0, _state: PhantomData };
        (job, FsOp::Rename { from: self.dir, to })
    }

    /// Discards the stage: the returned operation recursively deletes its
    /// directory, so the job never becomes visible. Also the cleanup for a
    /// stage abandoned without a terminal transition — the holder of an
    /// unconsumed stage performs this deletion on every exit path.
    pub fn dismiss(self) -> (r: FsOp)
        ensures
            r matches FsOp::RemoveTree { path } && path@ == self.dir()@,
    {
        FsOp::RemoveTree { path: self.dir }
    }
}

impl<S: State> Job<S> {
    /// The identifier's bytes, for contracts.
    pub closed spec fn id_bytes(&self) -> Seq<u8> {
        self.id@
    }

    /// The `since` stamp carried by the handle, for contracts.
    pub closed spec fn since_time(&self) -> u64 {
        self.since
    }

    /// A job handle always carries a well-formed identifier.
    pub open spec fn wf(&self) -> bool {
        self.id_bytes().len() == 16
    }

    /// A handle from one listed directory entry: the entry's name parsed as
    /// an identifier, and the time the entry's directory was created, from
    /// its metadata. A name that does not parse is foreign or corrupt data.
    pub fn from_entry(name: &str, since: u64) -> (r: Result<Job<S>, Error>)
        ensures
            r matches Ok(j) ==> j.wf() && is_id_encoding(name@, j.id_bytes())
                && j.since_time() == since,
            forall|b: Seq<u8>| is_id_encoding(name@, b) ==> (r matches Ok(j) && j.id_bytes() == b),
            r matches Err(e) ==> e == Error::CorruptEntry,
    {
        match ID::from_str(name) {
            Ok(id) => Ok(Job { id, since, _state: PhantomData }),
            Err(_) => Err(Error::CorruptEntry),
        }
    }

    /// The directory this handle's job currently occupies.
    pub fn path(&self, queue: &Queue) -> (r: String)
        requires
            self.wf(),
        ensures
            r@ == entry_path(S::dir_spec(*queue), base58_of(self.id_bytes())),
    {
        let name = self.id.as_string();
        entry_string(S::path(queue), name.as_str())
    }

    /// The job's identifier.
    pub fn id(&self) -> (r: &ID)
        ensures
            r@ == self.id_bytes(),
    {
        &self.id
    }

    /// Consumes the handle and moves the job's directory into the state `T`:
    /// a single atomic rename, copying no data and inspecting no contents.
    fn transfer<T: State>(self, queue: &Queue, since: u64) -> (r: (Job<T>, FsOp))
        requires
            self.wf(),
        ensures
            r.0.wf(),
            r.0.id_bytes() == self.id_bytes(),
            r.0.since_time() == since,
            r.1 matches FsOp::Rename { from, to }
                && from@ == entry_path(S::dir_spec(*queue), base58_of(self.id_bytes()))
                && to@ == entry_path(T::dir_spec(*queue), base58_of(self.id_bytes())),
    {
        let from = self.path(queue);
        let name = self.id.as_string();
        let to = entry_string(T::path(queue), name.as_str());
        (Job { id: self.id, since, _state: PhantomData }, FsOp::Rename { from, to })
    }
}

impl Job<NewState> {
    /// Terminal success: the returned operation recursively deletes
    /// `ready/<id>`. The identifier never appears in the queue again.
    pub fn complete(self, queue: &Queue) -> (r: FsOp)
        requires
            self.wf(),
        ensures
            r matches FsOp::RemoveTree { path }
                && path@ == entry_path(queue.path_ready@, base58_of(self.id_bytes())),
    {
        FsOp::RemoveTree { path: self.path(queue) }
    }

    /// The job's execution failed: consumes the handle and returns a failed
    /// handle (same identifier) plus the rename of `ready/<id>` to
    /// `failed/<id>`. `now` is the time of entry into `failed`, so repeated
    /// failures at nondecreasing times carry nondecreasing `since` stamps.
    pub fn error(self, queue: &Queue, now: u64) -> (r: (Job<ErrState>, FsOp))
        requires
            self.wf(),
        ensures
            r.0.wf(),
            r.0.id_bytes() == self.id_bytes(),
            r.0.since_time() == now,
            r.1 matches FsOp::Rename { from, to }
                && from@ == entry_path(queue.path_ready@, base58_of(self.id_bytes()))
                && to@ == entry_path(queue.path_failed@, base58_of(self.id_bytes())),
    {
        self.transfer::<ErrState>(queue, now)
    }
}

impl Job<ErrState> {
    /// The time (seconds since the epoch) the job entered `failed`, as read
    /// when the handle was constructed — not live-refreshed.
    pub fn since(&self) -> (r: u64)
        ensures
            r == self.since_time(),
    {
        self.since
    }

    /// Gives the job another chance: consumes the handle and returns a ready
    /// handle (same identifier) plus the rename of `failed/<id>` back to
    /// `ready/<id>`.
    pub fn retry(self, queue: &Queue) -> (r: (Job<NewState>, FsOp))
        requires
            self.wf(),
        ensures
            r.0.wf(),
            r.0.id_bytes() == self.id_bytes(),
            r.1 matches FsOp::Rename { from, to }
                && from@ == entry_path(queue.path_failed@, base58_of(self.id_bytes()))
                && to@ == entry_path(queue.path_ready@, base58_of(self.id_bytes())),
    {
        let since = self.since;
        self.transfer::<NewState>(queue, since)
    }
}

} // verus!
