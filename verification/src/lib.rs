//! A quorum broadcast-and-reconcile primitive for a replicated ledger of
//! authority nodes.
//!
//! A caller fans a request out to every node of a committee, collects one
//! reply or error per node, and then checks that the successful replies agree
//! on the outcome before accepting a single canonical answer. The pieces are:
//!
//! - the data model of replies, digests and per-node errors ([`replies`]);
//! - the broadcast driver's decision logic: classifying each round of
//!   per-node results into "accepted", "abort" or "retry" ([`broadcast`]);
//! - the quorum reconciler, which demands that all successful replies carry
//!   identical content digests ([`reconcile`]);
//! - extraction of a sub-result from a reconciled outcome, and the degenerate
//!   read-quorum over whole-object snapshots ([`extract`]).
//!
//! The network fan-out itself (one concurrent task per node, joined before
//! any decision is taken) is left to the embedding program: every function
//! here is a pure decision over the values the transport handed back.

pub mod broadcast;
pub mod extract;
pub mod reconcile;
pub mod replies;

pub use broadcast::{broadcast_until_accepted, classify_round, DriverOutcome, RoundOutcome};
pub use extract::{
    extract_obj, find_by_predicate, find_shared_created, parse_package_ref, read_quorum,
    ReadQuorumError,
};
pub use reconcile::{get_unique_effects, reconcile, ReconcileError};
pub use replies::{
    CreatedObject, Effects, Events, NodeError, NodeSet, ObjectRefInfo, OwnerKind, Reply,
};
