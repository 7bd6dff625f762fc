//! The quorum reconciler: turns the collected successful replies of one
//! broadcast into a single canonical answer, or fails loudly.
//!
//! Agreement is judged by content digest alone, per sub-result category:
//! every reply must carry the same effects digest and the same events digest.
//! Disagreement is always a hard failure — this reconciler validates
//! topologies whose correct nodes are expected to converge; it never resolves
//! a split by majority vote.

use vstd::prelude::*;

use crate::replies::{Effects, Events, Reply};

verus! {

/// Why reconciliation failed.
#[derive(Clone, Copy, PartialEq, Eq, Structural, Debug)]
pub enum ReconcileError {
    /// Reconciliation was attempted on an empty reply set: a harness bug
    /// (an empty committee, for instance), distinct from disagreement.
    NoRepliesError,
    /// The successful replies do not share a single digest per sub-result
    /// category: the replicated system under test violated agreement.
    DisagreementError,
}

/// Every reply carries the same effects digest.
pub open spec fn effects_unanimous(replies: Seq<Reply>) -> bool {
    forall|i: int|
        0 <= i < replies.len() ==> (#[trigger] replies[i]).effects.digest
            == replies[0].effects.digest
}

/// Every reply carries the same events digest.
pub open spec fn events_unanimous(replies: Seq<Reply>) -> bool {
    forall|i: int|
        0 <= i < replies.len() ==> (#[trigger] replies[i]).events.digest
            == replies[0].events.digest
}

/// The replies agree: one distinct digest per sub-result category.
pub open spec fn unanimous(replies: Seq<Reply>) -> bool {
    effects_unanimous(replies) && events_unanimous(replies)
}

/// Checks that the successful replies of a broadcast are unanimous by
/// content digest and yields the canonical payload.
///
/// Succeeds exactly on a non-empty reply set whose effects digests all match
/// and whose events digests all match, and then returns the first reply as
/// the representative of the single digest group. An empty set fails with
/// [`ReconcileError::NoRepliesError`]; a digest split fails with
/// [`ReconcileError::DisagreementError`].
pub fn reconcile(replies: Vec<Reply>) -> (outcome: Result<Reply, ReconcileError>)
    ensures
        outcome is Ok <==> replies@.len() > 0 && unanimous(replies@),
        outcome matches Ok(canonical) ==> canonical == replies@[0],
        replies@.len() == 0 ==> outcome == Err::<Reply, ReconcileError>(
            ReconcileError::NoRepliesError,
        ),
        replies@.len() > 0 && !unanimous(replies@) ==> outcome == Err::<Reply, ReconcileError>(
            ReconcileError::DisagreementError,
        ),
{
    if replies.len() == 0 {
        return Err(ReconcileError::NoRepliesError);
    }
    let effects_digest = replies[0].effects.digest;
    let events_digest = replies[0].events.digest;
    let mut i: usize = 1;
    while i < replies.len()
        invariant
            1 <= i <= replies@.len(),
            effects_digest == replies@[0].effects.digest,
            events_digest == replies@[0].events.digest,
            forall|j: int|
                0 <= j < i ==> (#[trigger] replies@[j]).effects.digest
                    == replies@[0].effects.digest && replies@[j].events.digest
                    == replies@[0].events.digest,
        decreases replies@.len() - i,
    {
        if replies[i].effects.digest != effects_digest || replies[i].events.digest
            != events_digest {
            return Err(ReconcileError::DisagreementError);
        }
        i = i + 1;
    }
    let mut remaining = replies;
    let canonical = remaining.remove(0);
    Ok(canonical)
}

/// Reconciles the replies and hands back the two sub-results of the single
/// digest group, effects first. Success and failure are exactly those of
/// [`reconcile`].
pub fn get_unique_effects(replies: Vec<Reply>) -> (outcome: Result<
    (Effects, Events),
    ReconcileError,
>)
    ensures
        outcome is Ok <==> replies@.len() > 0 && unanimous(replies@),
        outcome matches Ok(pair) ==> pair.0 == replies@[0].effects && pair.1
            == replies@[0].events,
        replies@.len() == 0 ==> outcome == Err::<(Effects, Events), ReconcileError>(
            ReconcileError::NoRepliesError,
        ),
        replies@.len() > 0 && !unanimous(replies@) ==> outcome == Err::<
            (Effects, Events),
            ReconcileError,
        >(ReconcileError::DisagreementError),
{
    match reconcile(replies) {
        Ok(canonical) => Ok((canonical.effects, canonical.events)),
        Err(e) => Err(e),
    }
}

/// Idempotence of re-broadcasting: nodes are expected to treat a repeated
/// certificate as already applied and answer with the digests of the first
/// accepted outcome. Whenever a re-broadcast's replies all carry the digests
/// of a first reconciled result, the re-broadcast reconciles too — no
/// disagreement can arise from repeating an accepted request — and its
/// canonical digests equal the first broadcast's.
pub proof fn lemma_rebroadcast_same_digest(first: Seq<Reply>, second: Seq<Reply>)
    requires
        first.len() > 0,
        unanimous(first),
        second.len() > 0,
        forall|i: int|
            0 <= i < second.len() ==> (#[trigger] second[i]).effects.digest
                == first[0].effects.digest && second[i].events.digest == first[0].events.digest,
    ensures
        unanimous(second),
        second[0].effects.digest == first[0].effects.digest,
        second[0].events.digest == first[0].events.digest,
{
}

} // verus!
