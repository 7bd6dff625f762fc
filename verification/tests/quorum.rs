use quorum_broadcast::{
    broadcast_until_accepted, classify_round, extract_obj, find_by_predicate, find_shared_created,
    get_unique_effects, parse_package_ref, read_quorum, reconcile, CreatedObject, DriverOutcome,
    Effects, Events, NodeError, NodeSet, ObjectRefInfo, OwnerKind, ReadQuorumError,
    ReconcileError, Reply, RoundOutcome,
};

fn reply(effects_digest: u64, events_digest: u64) -> Reply {
    Reply {
        effects: Effects {
            digest: effects_digest,
            created: Vec::new(),
        },
        events: Events {
            digest: events_digest,
        },
    }
}

fn obj(object_id: u64, version: u64, object_digest: u64) -> ObjectRefInfo {
    ObjectRefInfo {
        object_id,
        version,
        object_digest,
    }
}

fn created(object_id: u64, owner: OwnerKind) -> CreatedObject {
    CreatedObject {
        reference: obj(object_id, 1, 100 + object_id),
        owner,
    }
}

#[test]
fn four_nodes_unanimous_digest() {
    let replies = vec![reply(1, 5), reply(1, 5), reply(1, 5), reply(1, 5)];
    let outcome = reconcile(replies).unwrap();
    assert_eq!(outcome.effects.digest, 1);
    assert_eq!(outcome.events.digest, 5);
}

#[test]
fn one_dissenting_digest_is_disagreement() {
    let replies = vec![reply(1, 5), reply(1, 5), reply(1, 5), reply(2, 5)];
    assert_eq!(reconcile(replies), Err(ReconcileError::DisagreementError));
}

#[test]
fn dissenting_events_digest_is_disagreement() {
    let replies = vec![reply(1, 5), reply(1, 6)];
    assert_eq!(reconcile(replies), Err(ReconcileError::DisagreementError));
}

#[test]
fn no_replies_is_its_own_error() {
    assert_eq!(reconcile(Vec::new()), Err(ReconcileError::NoRepliesError));
}

#[test]
fn single_reply_is_unanimous() {
    let outcome = reconcile(vec![reply(9, 3)]).unwrap();
    assert_eq!(outcome.effects.digest, 9);
}

#[test]
fn get_unique_effects_returns_both_sub_results() {
    let replies = vec![reply(7, 8), reply(7, 8)];
    let (effects, events) = get_unique_effects(replies).unwrap();
    assert_eq!(effects.digest, 7);
    assert_eq!(events.digest, 8);
}

#[test]
fn get_unique_effects_fails_on_split() {
    let replies = vec![reply(7, 8), reply(9, 8)];
    assert_eq!(
        get_unique_effects(replies),
        Err(ReconcileError::DisagreementError)
    );
}

#[test]
fn three_transient_one_success_is_accepted_at_once() {
    let round: Vec<Result<Reply, NodeError>> = vec![
        Err(NodeError::TransientRejection),
        Err(NodeError::TransientRejection),
        Ok(reply(1, 5)),
        Err(NodeError::TransientRejection),
    ];
    match classify_round(round) {
        RoundOutcome::Accepted(successes) => {
            assert_eq!(successes.len(), 1);
            assert_eq!(successes[0].effects.digest, 1);
        }
        _ => panic!("expected the single success to be accepted"),
    }
}

#[test]
fn all_transient_round_is_retried() {
    let round: Vec<Result<Reply, NodeError>> = vec![
        Err(NodeError::TransientRejection),
        Err(NodeError::TransientRejection),
        Err(NodeError::TransientRejection),
        Err(NodeError::TransientRejection),
    ];
    assert!(matches!(classify_round(round), RoundOutcome::Retry));
}

#[test]
fn first_fatal_error_aborts_round() {
    let round: Vec<Result<Reply, NodeError>> = vec![
        Err(NodeError::TransientRejection),
        Err(NodeError::SignatureFailure),
        Ok(reply(1, 5)),
        Err(NodeError::MalformedRequest),
    ];
    match classify_round(round) {
        RoundOutcome::Fatal(e) => assert_eq!(e, NodeError::SignatureFailure),
        _ => panic!("expected the broadcast to abort on the fatal error"),
    }
}

#[test]
fn empty_round_is_retried() {
    assert!(matches!(classify_round(Vec::new()), RoundOutcome::Retry));
}

#[test]
fn driver_accepts_first_attempt_with_one_success() {
    let rounds: Vec<Vec<Result<Reply, NodeError>>> = vec![vec![
        Err(NodeError::TransientRejection),
        Err(NodeError::TransientRejection),
        Err(NodeError::TransientRejection),
        Ok(reply(1, 5)),
    ]];
    match broadcast_until_accepted(rounds) {
        DriverOutcome::Accepted { attempts, replies } => {
            assert_eq!(attempts, 1);
            assert_eq!(replies.len(), 1);
            assert_eq!(replies[0].effects.digest, 1);
        }
        _ => panic!("expected acceptance on the first attempt"),
    }
}

#[test]
fn driver_retries_once_then_accepts_all() {
    let rounds: Vec<Vec<Result<Reply, NodeError>>> = vec![
        vec![
            Err(NodeError::TransientRejection),
            Err(NodeError::TransientRejection),
            Err(NodeError::TransientRejection),
            Err(NodeError::TransientRejection),
        ],
        vec![
            Ok(reply(1, 5)),
            Ok(reply(1, 5)),
            Ok(reply(1, 5)),
            Ok(reply(1, 5)),
        ],
    ];
    match broadcast_until_accepted(rounds) {
        DriverOutcome::Accepted { attempts, replies } => {
            assert_eq!(attempts, 2);
            assert_eq!(replies.len(), 4);
            assert!(replies.iter().all(|r| r.effects.digest == 1));
        }
        _ => panic!("expected acceptance on the second attempt"),
    }
}

#[test]
fn driver_reports_pending_while_all_rounds_transient() {
    let rounds: Vec<Vec<Result<Reply, NodeError>>> = vec![
        vec![Err(NodeError::TransientRejection)],
        vec![Err(NodeError::TransientRejection)],
    ];
    assert!(matches!(
        broadcast_until_accepted(rounds),
        DriverOutcome::Pending
    ));
}

#[test]
fn driver_with_no_rounds_is_pending() {
    assert!(matches!(
        broadcast_until_accepted(Vec::new()),
        DriverOutcome::Pending
    ));
}

#[test]
fn driver_aborts_on_fatal_error_in_second_round() {
    let rounds: Vec<Vec<Result<Reply, NodeError>>> = vec![
        vec![Err(NodeError::TransientRejection)],
        vec![
            Err(NodeError::TransientRejection),
            Err(NodeError::NetworkFailure),
        ],
    ];
    match broadcast_until_accepted(rounds) {
        DriverOutcome::Fatal { attempts, error } => {
            assert_eq!(attempts, 2);
            assert_eq!(error, NodeError::NetworkFailure);
        }
        _ => panic!("expected the fatal error to abort the run"),
    }
}

#[test]
fn rebroadcast_with_same_digests_reconciles_identically() {
    let first = vec![reply(1, 5), reply(1, 5), reply(1, 5), reply(1, 5)];
    let first_outcome = reconcile(first).unwrap();
    let second = vec![reply(1, 5), reply(1, 5), reply(1, 5), reply(1, 5)];
    let second_outcome = reconcile(second).unwrap();
    assert_eq!(
        first_outcome.effects.digest,
        second_outcome.effects.digest
    );
    assert_eq!(first_outcome.events.digest, second_outcome.events.digest);
}

#[test]
fn transience_is_classified_by_variant() {
    assert!(NodeError::TransientRejection.is_transient());
    assert!(!NodeError::MalformedRequest.is_transient());
    assert!(!NodeError::SignatureFailure.is_transient());
    assert!(!NodeError::NetworkFailure.is_transient());
}

#[test]
fn extract_obj_accepts_identical_snapshots() {
    let snapshots = vec![obj(3, 2, 40), obj(3, 2, 40), obj(3, 2, 40)];
    assert_eq!(extract_obj(snapshots), Ok(obj(3, 2, 40)));
}

#[test]
fn extract_obj_rejects_differing_snapshots() {
    let snapshots = vec![obj(3, 2, 40), obj(3, 3, 41)];
    assert_eq!(
        extract_obj(snapshots),
        Err(ReconcileError::DisagreementError)
    );
}

#[test]
fn extract_obj_rejects_empty_set() {
    assert_eq!(
        extract_obj(Vec::new()),
        Err(ReconcileError::NoRepliesError)
    );
}

#[test]
fn read_quorum_returns_shared_snapshot() {
    let results: Vec<Result<ObjectRefInfo, NodeError>> =
        vec![Ok(obj(3, 2, 40)), Ok(obj(3, 2, 40)), Ok(obj(3, 2, 40))];
    assert_eq!(read_quorum(results), Ok(obj(3, 2, 40)));
}

#[test]
fn read_quorum_aborts_on_any_node_error() {
    let results: Vec<Result<ObjectRefInfo, NodeError>> = vec![
        Ok(obj(3, 2, 40)),
        Err(NodeError::TransientRejection),
        Ok(obj(3, 2, 40)),
    ];
    assert_eq!(
        read_quorum(results),
        Err(ReadQuorumError::FatalNodeError(
            NodeError::TransientRejection
        ))
    );
}

#[test]
fn read_quorum_rejects_empty_committee() {
    assert_eq!(
        read_quorum(Vec::new()),
        Err(ReadQuorumError::NoRepliesError)
    );
}

#[test]
fn read_quorum_rejects_split_snapshots() {
    let results: Vec<Result<ObjectRefInfo, NodeError>> =
        vec![Ok(obj(3, 2, 40)), Ok(obj(3, 2, 41))];
    assert_eq!(
        read_quorum(results),
        Err(ReadQuorumError::DisagreementError)
    );
}

#[test]
fn parse_package_ref_finds_first_immutable() {
    let list = vec![
        created(10, OwnerKind::AddressOwner(77)),
        created(11, OwnerKind::Immutable),
        created(12, OwnerKind::Immutable),
    ];
    assert_eq!(parse_package_ref(&list), Some(obj(11, 1, 111)));
}

#[test]
fn parse_package_ref_reports_missing_package() {
    let list = vec![
        created(10, OwnerKind::AddressOwner(77)),
        created(11, OwnerKind::Shared),
    ];
    assert_eq!(parse_package_ref(&list), None);
}

#[test]
fn find_shared_created_finds_counter_object() {
    let list = vec![
        created(10, OwnerKind::Immutable),
        created(11, OwnerKind::Shared),
    ];
    assert_eq!(find_shared_created(&list), Some(obj(11, 1, 111)));
}

#[test]
fn find_by_predicate_returns_first_matching_index() {
    let list = vec![
        created(10, OwnerKind::AddressOwner(77)),
        created(11, OwnerKind::ObjectOwner(10)),
        created(12, OwnerKind::AddressOwner(77)),
    ];
    let found = find_by_predicate(&list, |item: &CreatedObject| {
        matches!(item.owner, OwnerKind::ObjectOwner(_))
    });
    assert_eq!(found, Some(1));
}

#[test]
fn node_set_keeps_order_and_breadth() {
    let nodes = NodeSet::new(vec![31, 41, 59, 26]);
    assert_eq!(nodes.len(), 4);
    assert_eq!(nodes.address_at(0), 31);
    assert_eq!(nodes.address_at(3), 26);
}
