//! Pulling a final value out of a reconciled outcome, and the degenerate
//! read quorum.
//!
//! After reconciliation, a caller usually wants one specific output object —
//! the first immutably-owned one after publishing a package, say, or the
//! first shared one after creating a shared counter. [`find_by_predicate`]
//! scans the ordered created-object list for the first match.
//!
//! Read-only information queries collapse the broadcast-and-reconcile
//! pattern to its degenerate form ([`read_quorum`]): one round, no retry,
//! every per-node failure fatal (an information query is never rejected for
//! sequencing reasons), and the answers must be identical outright.

use vstd::prelude::*;

use crate::broadcast::oks;
use crate::reconcile::ReconcileError;
use crate::replies::{CreatedObject, NodeError, ObjectRefInfo, OwnerKind};

verus! {

/// All snapshots are one and the same value.
pub open spec fn all_equal(objects: Seq<ObjectRefInfo>) -> bool {
    forall|i: int| 0 <= i < objects.len() ==> #[trigger] objects[i] == objects[0]
}

/// Checks that every node's snapshot of a queried object is identical and
/// yields that single value. Succeeds exactly on a non-empty set of
/// identical snapshots; an empty set fails with
/// [`ReconcileError::NoRepliesError`], differing snapshots fail with
/// [`ReconcileError::DisagreementError`].
#[verifier::loop_isolation(false)]
pub fn extract_obj(replies: Vec<ObjectRefInfo>) -> (outcome: Result<ObjectRefInfo, ReconcileError>)
    ensures
        outcome is Ok <==> replies@.len() > 0 && all_equal(replies@),
        outcome matches Ok(obj) ==> obj == replies@[0],
        replies@.len() == 0 ==> outcome == Err::<ObjectRefInfo, ReconcileError>(
            ReconcileError::NoRepliesError,
        ),
        replies@.len() > 0 && !all_equal(replies@) ==> outcome == Err::<
            ObjectRefInfo,
            ReconcileError,
        >(ReconcileError::DisagreementError),
{
    if replies.len() == 0 {
        return Err(ReconcileError::NoRepliesError);
    }
    let first = replies[0];
    let mut i: usize = 1;
    while i < replies.len()
        invariant
            1 <= i <= replies@.len(),
            first == replies@[0],
            forall|j: int| 0 <= j < i ==> #[trigger] replies@[j] == replies@[0],
        decreases replies@.len() - i,
    {
        if !(replies[i] == first) {
            return Err(ReconcileError::DisagreementError);
        }
        i = i + 1;
    }
    Ok(first)
}

/// How a read quorum failed.
#[derive(Clone, Copy, PartialEq, Eq, Structural, Debug)]
pub enum ReadQuorumError {
    /// A node failed to answer the query. Information queries tolerate no
    /// per-node failure, transient or not: the first error aborts the read.
    FatalNodeError(NodeError),
    /// The query was fanned out to an empty committee.
    NoRepliesError,
    /// The nodes answered with differing snapshots.
    DisagreementError,
}

/// Some node answered the query with an error.
pub open spec fn has_err<T>(results: Seq<Result<T, NodeError>>) -> bool {
    exists|i: int| 0 <= i < results.len() && (#[trigger] results[i]) is Err
}

/// Position `i` holds the first error among the per-node results.
pub open spec fn first_err_is<T>(results: Seq<Result<T, NodeError>>, i: int) -> bool {
    0 <= i < results.len() && results[i] is Err && (forall|j: int|
        0 <= j < i ==> !((#[trigger] results[j]) is Err))
}

/// The single-round read quorum over one round of per-node query results:
/// aborts with the first per-node error of any kind, and otherwise demands
/// that the (non-empty) answers be identical, yielding the shared snapshot.
#[verifier::loop_isolation(false)]
pub fn read_quorum(results: Vec<Result<ObjectRefInfo, NodeError>>) -> (outcome: Result<
    ObjectRefInfo,
    ReadQuorumError,
>)
    ensures
        outcome is Ok <==> !has_err(results@) && oks(results@).len() > 0 && all_equal(
            oks(results@),
        ),
        outcome matches Ok(obj) ==> obj == oks(results@)[0],
        has_err(results@) ==> (outcome matches Err(e) && (e matches ReadQuorumError::FatalNodeError(
            ne,
        ) && exists|i: int|
            #[trigger] first_err_is(results@, i) && results@[i] == Err::<ObjectRefInfo, NodeError>(
                ne,
            ))),
        !has_err(results@) && oks(results@).len() == 0 ==> outcome == Err::<
            ObjectRefInfo,
            ReadQuorumError,
        >(ReadQuorumError::NoRepliesError),
        !has_err(results@) && oks(results@).len() > 0 && !all_equal(oks(results@)) ==> outcome
            == Err::<ObjectRefInfo, ReadQuorumError>(ReadQuorumError::DisagreementError),
{
    let mut snapshots: Vec<ObjectRefInfo> = Vec::new();
    let mut i: usize = 0;
    while i < results.len()
        invariant
            i <= results@.len(),
            snapshots@ == oks(results@.subrange(0, i as int)),
            forall|j: int| 0 <= j < i ==> !((#[trigger] results@[j]) is Err),
        decreases results@.len() - i,
    {
        proof {
            assert(results@.subrange(0, i as int + 1).drop_last() =~= results@.subrange(
                0,
                i as int,
            ));
            assert(results@.subrange(0, i as int + 1).last() == results@[i as int]);
        }
        match results[i] {
            Ok(snapshot) => {
                snapshots.push(snapshot);
            },
            Err(e) => {
                proof {
                    assert(first_err_is(results@, i as int));
                }
                return Err(ReadQuorumError::FatalNodeError(e));
            },
        }
        i = i + 1;
    }
    proof {
        assert(results@.subrange(0, results@.len() as int) =~= results@);
    }
    match extract_obj(snapshots) {
        Ok(obj) => Ok(obj),
        Err(ReconcileError::NoRepliesError) => Err(ReadQuorumError::NoRepliesError),
        Err(ReconcileError::DisagreementError) => Err(ReadQuorumError::DisagreementError),
    }
}

/// Scans the created-object list in order and returns the index of the
/// first object the predicate accepts, or `None` when it accepts none.
/// Callers treat `None` as a fatal harness assertion — the expected output
/// was not produced — rather than a recoverable condition.
#[verifier::loop_isolation(false)]
pub fn find_by_predicate<F: Fn(&CreatedObject) -> bool>(items: &Vec<CreatedObject>, pred: F) -> (
    found: Option<usize>)
    requires
        forall|i: int| 0 <= i < items@.len() ==> call_requires(pred, (&items@[i],)),
    ensures
        found matches Some(i) ==> i < items@.len() && call_ensures(pred, (&items@[i as int],), true)
            && (forall|j: int| 0 <= j < i ==> call_ensures(pred, (&items@[j],), false)),
        found is None ==> forall|j: int|
            0 <= j < items@.len() ==> call_ensures(pred, (&items@[j],), false),
{
    let mut i: usize = 0;
    while i < items.len()
        invariant
            i <= items@.len(),
            forall|j: int| 0 <= j < i ==> call_ensures(pred, (&items@[j],), false),
        decreases items@.len() - i,
    {
        let item = items[i];
        if pred(&item) {
            return Some(i);
        }
        i = i + 1;
    }
    None
}

/// Predicate for [`find_by_predicate`]: the object is owned immutably.
pub fn owned_immutably(item: &CreatedObject) -> (is_immutable: bool)
    ensures
        is_immutable == (item.owner is Immutable),
{
    matches!(item.owner, OwnerKind::Immutable)
}

/// Predicate for [`find_by_predicate`]: the object is under shared
/// ownership.
pub fn owned_shared(item: &CreatedObject) -> (is_shared: bool)
    ensures
        is_shared == (item.owner is Shared),
{
    matches!(item.owner, OwnerKind::Shared)
}

/// Extracts the package reference from the created objects of a
/// transaction's effects: the first immutably-owned object is the package
/// an authority published. Returns its reference, or `None` when nothing
/// immutable was created.
pub fn parse_package_ref(created: &Vec<CreatedObject>) -> (found: Option<ObjectRefInfo>)
    ensures
        found matches Some(obj_ref) ==> exists|i: int|
            0 <= i < created@.len() && (#[trigger] created@[i]).owner is Immutable && obj_ref
                == created@[i].reference && (forall|j: int|
                0 <= j < i ==> !((#[trigger] created@[j]).owner is Immutable)),
        found is None <==> forall|i: int|
            0 <= i < created@.len() ==> !((#[trigger] created@[i]).owner is Immutable),
{
    let result = find_by_predicate(created, owned_immutably);
    match result {
        Some(i) => Some(created[i].reference),
        None => None,
    }
}

/// Finds the first created object under shared ownership: the shared
/// counter object, after a certificate that creates one. Returns its
/// reference, or `None` when nothing shared was created.
pub fn find_shared_created(created: &Vec<CreatedObject>) -> (found: Option<ObjectRefInfo>)
    ensures
        found matches Some(obj_ref) ==> exists|i: int|
            0 <= i < created@.len() && (#[trigger] created@[i]).owner is Shared && obj_ref
                == created@[i].reference && (forall|j: int|
                0 <= j < i ==> !((#[trigger] created@[j]).owner is Shared)),
        found is None <==> forall|i: int|
            0 <= i < created@.len() ==> !((#[trigger] created@[i]).owner is Shared),
{
    let result = find_by_predicate(created, owned_shared);
    match result {
        Some(i) => Some(created[i].reference),
        None => None,
    }
}

} // verus!
