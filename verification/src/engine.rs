//! The regeneration engine's decisions, modelled over the published files.
//!
//! The process's working directory is modelled as a map from file name to
//! file content.  One notification replaces at most the one file named by
//! its payload; the bootstrap pass replaces every registered file once, in
//! registry order.  The connection, the query execution and the file writes
//! themselves live outside the library; the library decides which file is
//! written and with what content.

use vstd::prelude::*;
use crate::Resource;
use crate::registry::{spec_lookup, spec_registry_names, lemma_registry_names_complete};
use crate::serializer::{spec_snapshot, render_snapshot};

verus! {

/// A pending file rewrite: which snapshot file to replace, its complete new
/// content, and the row count that the log line reports.
pub struct SnapshotPlan {
    pub file_name: String,
    pub content: String,
    pub row_count: usize,
}

/// The observational outcome of one regeneration, used for logging only.
pub struct RegenerationResult {
    pub resource: String,
    pub row_count: usize,
}

/// One notification's effect on the published files, given the rows the
/// named resource's query returns: a registered payload replaces exactly
/// that one file with the freshly rendered snapshot; any other payload
/// changes nothing.
pub open spec fn spec_store_after_event(
    files: Map<Seq<char>, Seq<char>>,
    payload: Seq<char>,
    rows: Seq<Seq<char>>,
) -> Map<Seq<char>, Seq<char>> {
    if spec_lookup(payload) is Some {
        files.insert(payload, spec_snapshot(rows))
    } else {
        files
    }
}

/// The effect of writing snapshots for `names[i..]` in order, where
/// `rows[j]` holds the rows returned for `names[j]`.
pub open spec fn spec_store_after_writes(
    files: Map<Seq<char>, Seq<char>>,
    names: Seq<Seq<char>>,
    rows: Seq<Seq<Seq<char>>>,
    i: int,
) -> Map<Seq<char>, Seq<char>>
    decreases names.len() - i,
{
    if i < 0 || i >= names.len() {
        files
    } else {
        spec_store_after_writes(files.insert(names[i], spec_snapshot(rows[i])), names, rows, i + 1)
    }
}

/// The effect of the bootstrap pass: every registered resource regenerated
/// once, in registry order.
pub open spec fn spec_store_after_bootstrap(
    files: Map<Seq<char>, Seq<char>>,
    rows: Seq<Seq<Seq<char>>>,
) -> Map<Seq<char>, Seq<char>> {
    spec_store_after_writes(files, spec_registry_names(), rows, 0)
}

/// Turns a resolved resource and its query's rows into the one pending file
/// rewrite: the file carries the resource's name and the rendered snapshot.
pub fn build_plan(res: &Resource, rows: &Vec<String>) -> (p: SnapshotPlan)
    ensures
        p.file_name@ == res.name@,
        p.content@ == spec_snapshot(rows.deep_view()),
        p.row_count == rows@.len(),
        forall|files: Map<Seq<char>, Seq<char>>|
            spec_lookup(res.name@) is Some ==> spec_store_after_event(
                files,
                res.name@,
                rows.deep_view(),
            ) == #[trigger] files.insert(p.file_name@, p.content@),
{
    let (content, row_count) = render_snapshot(rows);
    SnapshotPlan { file_name: res.name.to_owned(), content, row_count }
}

impl SnapshotPlan {
    /// The log-line view of a completed plan.
    pub fn result(&self) -> (r: RegenerationResult)
        ensures
            r.resource@ == self.file_name@,
            r.row_count == self.row_count,
    {
        RegenerationResult { resource: self.file_name.clone(), row_count: self.row_count }
    }
}

/// What can go wrong while regenerating one resource, or with the
/// connection that carries the notifications.
#[derive(Clone, Copy, Debug, PartialEq, Eq, Structural)]
pub enum RegenError {
    /// The payload names no registered resource (or is empty or garbled);
    /// treated identically either way.
    UnknownResource,
    /// The resource's query failed.
    QueryError,
    /// The snapshot file could not be created or written.
    IoError,
    /// The connection itself failed; nothing more can be received.
    ConnectionError,
}

/// Which pass the engine is in: the one-time startup regeneration of every
/// resource, or the live notification loop.
#[derive(Clone, Copy, Debug, PartialEq, Eq, Structural)]
pub enum Phase {
    Bootstrap,
    Live,
}

/// The fault-tolerance policy as a predicate.
pub open spec fn spec_is_fatal(phase: Phase, err: RegenError) -> bool {
    match err {
        RegenError::ConnectionError => true,
        RegenError::UnknownResource => false,
        RegenError::QueryError => phase is Bootstrap,
        RegenError::IoError => phase is Bootstrap,
    }
}

/// Decides whether an error ends the process.  A connection failure is
/// always fatal.  During bootstrap any failed regeneration aborts startup:
/// serving absent snapshots is worse than not starting.  Once live, one
/// resource's failure must not stop updates for the others, and an unknown
/// payload never stops the loop in either phase.
pub fn is_fatal(phase: Phase, err: RegenError) -> (r: bool)
    ensures
        r == spec_is_fatal(phase, err),
{
    match err {
        RegenError::ConnectionError => true,
        RegenError::UnknownResource => false,
        RegenError::QueryError => matches!(phase, Phase::Bootstrap),
        RegenError::IoError => matches!(phase, Phase::Bootstrap),
    }
}

/// A notification for one resource never touches any other resource's
/// file: every other name keeps its presence and its content.
pub proof fn lemma_event_isolation(
    files: Map<Seq<char>, Seq<char>>,
    payload: Seq<char>,
    rows: Seq<Seq<char>>,
    other: Seq<char>,
)
    requires
        other != payload,
    ensures
        spec_store_after_event(files, payload, rows).contains_key(other) == files.contains_key(
            other,
        ),
        files.contains_key(other) ==> spec_store_after_event(files, payload, rows)[other]
            == files[other],
{
}

/// A payload outside the registry leaves every published file exactly as it
/// was.
pub proof fn lemma_unknown_event_no_change(
    files: Map<Seq<char>, Seq<char>>,
    payload: Seq<char>,
    rows: Seq<Seq<char>>,
)
    requires
        spec_lookup(payload) is None,
    ensures
        spec_store_after_event(files, payload, rows) == files,
{
}

/// A key that none of the remaining writes names keeps its presence and
/// content through the whole pass.
proof fn lemma_writes_untouched(
    files: Map<Seq<char>, Seq<char>>,
    names: Seq<Seq<char>>,
    rows: Seq<Seq<Seq<char>>>,
    i: int,
    key: Seq<char>,
)
    requires
        forall|j: int| i <= j < names.len() ==> #[trigger] names[j] != key,
    ensures
        spec_store_after_writes(files, names, rows, i).contains_key(key) == files.contains_key(
            key,
        ),
        files.contains_key(key) ==> spec_store_after_writes(files, names, rows, i)[key]
            == files[key],
    decreases names.len() - i,
{
    if 0 <= i < names.len() {
        lemma_writes_untouched(files.insert(names[i], spec_snapshot(rows[i])), names, rows, i + 1, key);
    }
}

/// After the writes from position `i` on, every name they cover is present
/// with exactly its own rendered snapshot, provided the names are pairwise
/// distinct.
proof fn lemma_writes_complete(
    files: Map<Seq<char>, Seq<char>>,
    names: Seq<Seq<char>>,
    rows: Seq<Seq<Seq<char>>>,
    i: int,
)
    requires
        0 <= i,
        rows.len() == names.len(),
        forall|j: int, k: int|
            0 <= j < names.len() && 0 <= k < names.len() && j != k ==> names[j] != names[k],
    ensures
        forall|j: int|
            i <= j < names.len() ==> spec_store_after_writes(files, names, rows, i).contains_key(
                #[trigger] names[j],
            ) && spec_store_after_writes(files, names, rows, i)[names[j]] == spec_snapshot(rows[j]),
    decreases names.len() - i,
{
    if 0 <= i < names.len() {
        let files1 = files.insert(names[i], spec_snapshot(rows[i]));
        lemma_writes_complete(files1, names, rows, i + 1);
        let m = spec_store_after_writes(files, names, rows, i);
        assert(m == spec_store_after_writes(files1, names, rows, i + 1));
        assert forall|j: int|
            i <= j < names.len() implies m.contains_key(#[trigger] names[j]) && m[names[j]]
            == spec_snapshot(rows[j]) by {
            if j == i {
                assert(forall|k: int| i + 1 <= k < names.len() ==> #[trigger] names[k] != names[i]);
                lemma_writes_untouched(files1, names, rows, i + 1, names[i]);
                assert(files1.contains_key(names[i]) && files1[names[i]] == spec_snapshot(rows[i]));
            }
        }
    }
}

/// After a successful bootstrap, every name the registry knows is published
/// with the snapshot rendered from its own query's rows.
pub proof fn lemma_bootstrap_completeness(
    files: Map<Seq<char>, Seq<char>>,
    rows: Seq<Seq<Seq<char>>>,
    n: Seq<char>,
)
    requires
        rows.len() == spec_registry_names().len(),
        spec_lookup(n) is Some,
    ensures
        spec_store_after_bootstrap(files, rows).contains_key(n),
        exists|j: int|
            0 <= j < spec_registry_names().len() && #[trigger] spec_registry_names()[j] == n
                && spec_store_after_bootstrap(files, rows)[n] == spec_snapshot(rows[j]),
{
    lemma_registry_names_complete(n);
    let j = choose|j: int|
        0 <= j < spec_registry_names().len() && #[trigger] spec_registry_names()[j] == n;
    crate::registry::lemma_registry_names_unique();
    lemma_writes_complete(files, spec_registry_names(), rows, 0);
    assert(spec_store_after_bootstrap(files, rows)[n] == spec_snapshot(rows[j]));
}

} // verus!
