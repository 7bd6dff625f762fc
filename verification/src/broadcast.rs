//! The broadcast driver's decision logic.
//!
//! One round of a broadcast fans the request out to every node of the
//! committee and waits for all of them, yielding one `Result` per node. The
//! driver then decides: discard transient rejections (the ordering layer has
//! not yet sequenced a dependency — the request itself is fine), abort on any
//! other error, accept as soon as at least one node succeeded, and otherwise
//! broadcast the identical request again. The fan-out itself is the
//! embedding program's; the decisions live here.

use vstd::prelude::*;

use crate::replies::{NodeError, Reply};

verus! {

/// The successful values among per-node results, in node order.
pub open spec fn oks<T>(results: Seq<Result<T, NodeError>>) -> Seq<T>
    decreases results.len(),
{
    if results.len() == 0 {
        Seq::empty()
    } else {
        let prefix = oks(results.drop_last());
        match results.last() {
            Ok(v) => prefix.push(v),
            Err(_) => prefix,
        }
    }
}

/// Position `i` holds a non-transient error.
pub open spec fn fatal_at<T>(results: Seq<Result<T, NodeError>>, i: int) -> bool {
    results[i] matches Err(e) && !e.spec_is_transient()
}

/// Some node failed for a reason no retry can cure.
pub open spec fn has_fatal<T>(results: Seq<Result<T, NodeError>>) -> bool {
    exists|i: int| 0 <= i < results.len() && #[trigger] fatal_at(results, i)
}

/// Position `i` holds the first non-transient error of the round.
pub open spec fn first_fatal_is<T>(results: Seq<Result<T, NodeError>>, i: int) -> bool {
    0 <= i < results.len() && fatal_at(results, i) && (forall|j: int|
        0 <= j < i ==> !fatal_at(results, j))
}

/// A round the driver repeats: no node succeeded, and every failure was a
/// transient rejection.
pub open spec fn round_retries(results: Seq<Result<Reply, NodeError>>) -> bool {
    !has_fatal(results) && oks(results).len() == 0
}

/// What the driver decides after one complete round of per-node results.
pub enum RoundOutcome {
    /// At least one node accepted and no node failed fatally: the surviving
    /// successes, in node order.
    Accepted(Vec<Reply>),
    /// A node failed for a non-transient reason: the whole broadcast aborts
    /// with the first such error.
    Fatal(NodeError),
    /// Nothing but transient rejections: broadcast the identical request
    /// again.
    Retry,
}

/// Decides one round: aborts with the first non-transient error if any node
/// reported one, else accepts the (non-empty) successes, else asks for a
/// retry. Transient rejections are swallowed here and never surface.
#[verifier::loop_isolation(false)]
pub fn classify_round(results: Vec<Result<Reply, NodeError>>) -> (outcome: RoundOutcome)
    ensures
        outcome is Fatal <==> has_fatal(results@),
        outcome matches RoundOutcome::Fatal(e) ==> exists|i: int|
            #[trigger] first_fatal_is(results@, i) && results@[i] == Err::<Reply, NodeError>(e),
        outcome is Accepted <==> !has_fatal(results@) && oks(results@).len() > 0,
        outcome matches RoundOutcome::Accepted(successes) ==> successes@ == oks(results@),
        outcome is Retry <==> round_retries(results@),
{
    let ghost all = results@;
    let total: usize = results.len();
    let mut work = results;
    let mut successes: Vec<Reply> = Vec::new();
    let mut done: usize = 0;
    while work.len() > 0
        invariant
            total == all.len(),
            done + work@.len() == all.len(),
            work@ == all.subrange(done as int, all.len() as int),
            successes@ == oks(all.subrange(0, done as int)),
            forall|j: int| 0 <= j < done ==> !fatal_at(all, j),
        decreases work@.len(),
    {
        let item = work.remove(0);
        proof {
            assert(item == all[done as int]);
            assert(work@ =~= all.subrange(done as int + 1, all.len() as int));
            assert(all.subrange(0, done as int + 1).drop_last() =~= all.subrange(0, done as int));
            assert(all.subrange(0, done as int + 1).last() == all[done as int]);
        }
        match item {
            Ok(reply) => {
                successes.push(reply);
            },
            Err(e) => {
                if !e.is_transient() {
                    proof {
                        assert(fatal_at(all, done as int));
                        assert(first_fatal_is(all, done as int));
                    }
                    return RoundOutcome::Fatal(e);
                }
                proof {
                    assert(!fatal_at(all, done as int));
                }
            },
        }
        done = done + 1;
    }
    proof {
        assert(all.subrange(0, all.len() as int) =~= all);
    }
    if successes.len() == 0 {
        RoundOutcome::Retry
    } else {
        RoundOutcome::Accepted(successes)
    }
}

/// Every round before position `k` was a pure retry round.
pub open spec fn rounds_retry_upto(rounds: Seq<Vec<Result<Reply, NodeError>>>, k: int) -> bool {
    forall|j: int| 0 <= j < k ==> round_retries((#[trigger] rounds[j])@)
}

/// How a run of repeated broadcasts ended.
pub enum DriverOutcome {
    /// The round numbered `attempts` (counting from 1) was the first that
    /// was not all-transient, no node in it failed fatally, and at least one
    /// accepted: its successes, in node order.
    Accepted { attempts: usize, replies: Vec<Reply> },
    /// The round numbered `attempts` was the first that was not
    /// all-transient and a node in it failed for a non-transient reason: the
    /// first such error.
    Fatal { attempts: usize, error: NodeError },
    /// Every round seen so far drew nothing but transient rejections: the
    /// driver would broadcast the identical request again.
    Pending,
}

/// Keeps re-broadcasting until at least one node accepts the request.
///
/// The ordering layer may drop a request before sequencing it, so nodes may
/// transiently reject a round wholesale; such rounds are discarded and the
/// identical request is broadcast again, with no bound on the number of
/// attempts. `rounds` holds the per-node results of each attempt, in order,
/// as the fan-out produced them; the embedding program, which owns the
/// transport, extends it one round at a time for as long as the driver
/// reports [`DriverOutcome::Pending`].
#[verifier::loop_isolation(false)]
pub fn broadcast_until_accepted(rounds: Vec<Vec<Result<Reply, NodeError>>>) -> (outcome:
    DriverOutcome)
    ensures
        outcome matches DriverOutcome::Accepted { attempts, replies } ==> 1 <= attempts
            <= rounds@.len() && rounds_retry_upto(rounds@, attempts - 1) && !has_fatal(
            rounds@[attempts - 1]@,
        ) && replies@ == oks(rounds@[attempts - 1]@) && replies@.len() > 0,
        outcome matches DriverOutcome::Fatal { attempts, error } ==> 1 <= attempts
            <= rounds@.len() && rounds_retry_upto(rounds@, attempts - 1) && exists|i: int|
            #[trigger] first_fatal_is(rounds@[attempts - 1]@, i) && rounds@[attempts - 1]@[i]
                == Err::<Reply, NodeError>(error),
        outcome is Pending <==> rounds_retry_upto(rounds@, rounds@.len() as int),
{
    let ghost all = rounds@;
    let total: usize = rounds.len();
    let mut work = rounds;
    let mut attempt: usize = 0;
    while work.len() > 0
        invariant
            total == all.len(),
            attempt + work@.len() == all.len(),
            work@ == all.subrange(attempt as int, all.len() as int),
            rounds_retry_upto(all, attempt as int),
        decreases work@.len(),
    {
        let round = work.remove(0);
        proof {
            assert(round == all[attempt as int]);
            assert(work@ =~= all.subrange(attempt as int + 1, all.len() as int));
        }
        match classify_round(round) {
            RoundOutcome::Accepted(replies) => {
                proof {
                    assert(!round_retries(all[attempt as int]@));
                }
                return DriverOutcome::Accepted { attempts: attempt + 1, replies };
            },
            RoundOutcome::Fatal(error) => {
                proof {
                    assert(!round_retries(all[attempt as int]@));
                }
                return DriverOutcome::Fatal { attempts: attempt + 1, error };
            },
            RoundOutcome::Retry => {
                proof {
                    assert(round_retries(all[attempt as int]@));
                }
                attempt = attempt + 1;
            },
        }
    }
    DriverOutcome::Pending
}

/// Transient-filter law, retrying half: a round in which every node answered
/// with a transient rejection is never a failure of the broadcast — the
/// driver classifies it as a retry round.
pub proof fn lemma_transient_only_round_retries(results: Seq<Result<Reply, NodeError>>)
    requires
        forall|i: int|
            0 <= i < results.len() ==> results[i] == Err::<Reply, NodeError>(
                NodeError::TransientRejection,
            ),
    ensures
        round_retries(results),
{
    lemma_no_oks_when_all_err(results);
}

/// Transient-filter law, aborting half: a round containing even one
/// non-transient error is never retried — the driver aborts the broadcast.
pub proof fn lemma_fatal_error_aborts(results: Seq<Result<Reply, NodeError>>, i: int)
    requires
        0 <= i < results.len(),
        results[i] matches Err(e) && !e.spec_is_transient(),
    ensures
        has_fatal(results),
        !round_retries(results),
{
    assert(fatal_at(results, i));
}

/// A round without a single success contributes no surviving replies.
proof fn lemma_no_oks_when_all_err(results: Seq<Result<Reply, NodeError>>)
    requires
        forall|i: int| 0 <= i < results.len() ==> (#[trigger] results[i]) is Err,
    ensures
        oks(results).len() == 0,
    decreases results.len(),
{
    if results.len() > 0 {
        lemma_no_oks_when_all_err(results.drop_last());
    }
}

} // verus!
