use datastorers::DatastoreClientError;
use datastorers::DatastoreEntity;
use datastorers::DatastoreProperties;
use datastorers::DatastorersError;
use datastorers::IdentifierId;
use datastorers::Key;
use datastorers::KeyPathElement;
use datastorers::PathElement;
use datastorers::TransactionConnection;
use datastorers::protocol::ApiEntity;
use datastorers::protocol::BeginTransactionResponse;
use datastorers::protocol::CommitMode;
use datastorers::protocol::CommitResponse;
use datastorers::protocol::EntityResult;
use datastorers::protocol::LookupResponse;
use datastorers::protocol::MutationResult;
use datastorers::query::lookup_one_result;
use datastorers::update::commit_one_request;
use datastorers::update::commit_one_result;
use datastorers::update::delete_one_request;
use datastorers::update::delete_one_result;
use datastorers::update::insert_expected;

fn assert_client_error<T: std::fmt::Debug>(
    result: Result<T, DatastorersError>,
    expected_error: DatastoreClientError,
) {
    match result {
        Ok(_) => panic!("expected an error"),
        Err(e) => match e {
            DatastorersError::DatastoreClientError(client_error) => {
                assert_eq!(client_error, expected_error)
            },
            _ => panic!("expected a client error, got {:?}", e),
        },
    }
}

fn test_entity(key: Option<Key>, name: &str, n: i64, version: Option<i64>) -> DatastoreEntity {
    let mut properties = DatastoreProperties::new();
    properties.set("Name", name.to_string()).unwrap();
    properties.set("n", n).unwrap();
    DatastoreEntity::from(key, properties, version)
}

fn assigned_key(id: i64) -> Key {
    IdentifierId::id("Test", Some(id), KeyPathElement::end()).get_key()
}

fn unassigned_key() -> Key {
    IdentifierId::id("Test", None, KeyPathElement::end()).get_key()
}

fn commit_response(key: Option<Key>, version: Option<i64>, conflict: Option<bool>) -> CommitResponse {
    CommitResponse {
        mutation_results: Some(vec![MutationResult { key, version, conflict_detected: conflict }]),
    }
}

#[test]
fn keyless_entity_gets_a_synthesized_key_and_expects_assignment() {
    let entity = test_entity(None, "x", 5, None);
    assert!(insert_expected(&entity));
    let (request, is_insert) = commit_one_request(entity, "Test", None);
    assert!(is_insert);
    assert_eq!(1, request.mutations.len());
    assert_eq!(CommitMode::NonTransactional, request.mode);
    let upsert = request.mutations[0].upsert.as_ref().unwrap();
    let path = upsert.key.as_ref().unwrap().path.as_ref().unwrap();
    assert_eq!(1, path.len());
    assert_eq!("Test", path[0].kind.as_ref().unwrap());
    assert!(path[0].id.is_none());
    assert!(path[0].name.is_none());
}

#[test]
fn keyed_entity_does_not_request_assignment_and_keeps_its_key() {
    let entity = test_entity(Some(assigned_key(77)), "x", 5, Some(3));
    assert!(!insert_expected(&entity));
    let (request, is_insert) = commit_one_request(entity, "Test", None);
    assert!(!is_insert);
    // The version stamp rides along as the concurrency precondition.
    assert_eq!(Some(3), request.mutations[0].base_version);

    let committed =
        commit_one_result(request, is_insert, commit_response(None, Some(4), None)).unwrap();
    // The original key is preserved; the store's new stamp is adopted.
    let key = committed.key().unwrap();
    assert_eq!(assigned_key(77), key);
    assert_eq!(Some(4), committed.version());
}

#[test]
fn insert_without_returned_key_fails_key_assignment() {
    let entity = test_entity(Some(unassigned_key()), "x", 5, None);
    let (request, is_insert) = commit_one_request(entity, "Test", None);
    assert!(is_insert);
    assert_client_error(
        commit_one_result(request, is_insert, commit_response(None, Some(1), None)),
        DatastoreClientError::KeyAssignmentFailed,
    );
}

#[test]
fn commit_owes_exactly_one_mutation_result() {
    let entity = test_entity(None, "x", 5, None);
    let (request, is_insert) = commit_one_request(entity, "Test", None);
    assert_client_error(
        commit_one_result(request, is_insert, CommitResponse { mutation_results: None }),
        DatastoreClientError::ApiDataError,
    );

    let entity = test_entity(None, "x", 5, None);
    let (request, is_insert) = commit_one_request(entity, "Test", None);
    assert_client_error(
        commit_one_result(request, is_insert, CommitResponse { mutation_results: Some(vec![]) }),
        DatastoreClientError::KeyAssignmentFailed,
    );

    let entity = test_entity(None, "x", 5, None);
    let (request, is_insert) = commit_one_request(entity, "Test", None);
    let two = CommitResponse {
        mutation_results: Some(vec![
            MutationResult { key: None, version: None, conflict_detected: None },
            MutationResult { key: None, version: None, conflict_detected: None },
        ]),
    };
    assert_client_error(
        commit_one_result(request, is_insert, two),
        DatastoreClientError::AmbiguousResult,
    );
}

#[test]
fn test_optimistic_concurrency() {
    // One entity persisted at version 1; two clients fetch it.
    let a = test_entity(Some(assigned_key(9)), "x", 100, Some(1));
    let b = test_entity(Some(assigned_key(9)), "x", 200, Some(1));

    // Client A commits first and succeeds; the store stamps version 2.
    let (request_a, insert_a) = commit_one_request(a, "Test", None);
    assert_eq!(Some(1), request_a.mutations[0].base_version);
    let committed_a =
        commit_one_result(request_a, insert_a, commit_response(None, Some(2), Some(false)))
            .unwrap();
    assert_eq!(Some(2), committed_a.version());

    // Client B commits against the stale version 1; the store reports a
    // conflict, and the commit fails. The client never retries on its own.
    let (request_b, insert_b) = commit_one_request(b, "Test", None);
    assert_eq!(Some(1), request_b.mutations[0].base_version);
    assert_client_error(
        commit_one_result(request_b, insert_b, commit_response(None, None, Some(true))),
        DatastoreClientError::DataConflict,
    );

    // A subsequent fetch reflects only A's write.
    let mut committed_properties = committed_a.into_properties();
    let committed_n: i64 = committed_properties.get("n").unwrap();
    let fetched = lookup_one_result(LookupResponse {
        found: Some(vec![EntityResult {
            entity: Some(ApiEntity {
                key: Some(assigned_key(9)),
                properties: {
                    let mut p = DatastoreProperties::new();
                    p.set("Name", "x".to_string()).unwrap();
                    p.set("n", committed_n).unwrap();
                    Some(p)
                },
            }),
            version: Some(2),
        }]),
    })
    .unwrap();
    let mut fetched_properties = fetched.into_properties();
    let fetched_n: i64 = fetched_properties.get("n").unwrap();
    assert_eq!(100, fetched_n);
}

#[test]
fn test_example_commit_scenario() {
    // Entity {kind="Test", key=unassigned, props={Name:"x", n:5}} committed:
    // the result carries a store-assigned id and the properties unchanged.
    let entity = test_entity(Some(unassigned_key()), "x", 5, None);
    let (request, is_insert) = commit_one_request(entity, "Test", None);
    assert!(is_insert);
    let committed = commit_one_result(
        request,
        is_insert,
        commit_response(Some(assigned_key(424242)), Some(1), None),
    )
    .unwrap();

    let key = committed.key().unwrap();
    let path = key.path.as_ref().unwrap();
    assert_eq!(Some(424242), path[path.len() - 1].id);
    let version = committed.version();
    let mut properties = committed.into_properties();
    let name: String = properties.get("Name").unwrap();
    let n: i64 = properties.get("n").unwrap();
    assert_eq!("x", name);
    assert_eq!(5, n);
    assert_eq!(Some(1), version);

    // A second commit of the fetched result with n:6 succeeds ...
    let updated = test_entity(Some(assigned_key(424242)), "x", 6, Some(1));
    let (request, is_insert) = commit_one_request(updated, "Test", None);
    assert!(!is_insert);
    let committed = commit_one_result(request, is_insert, commit_response(None, Some(2), None))
        .unwrap();
    assert_eq!(Some(2), committed.version());

    // ... and a stale copy carrying the old version fails with a conflict.
    let stale = test_entity(Some(assigned_key(424242)), "x", 5, Some(1));
    let (request, is_insert) = commit_one_request(stale, "Test", None);
    assert_client_error(
        commit_one_result(request, is_insert, commit_response(None, None, Some(true))),
        DatastoreClientError::DataConflict,
    );
}

#[test]
fn delete_requires_a_fully_assigned_key() {
    assert_client_error(
        delete_one_request(test_entity(None, "x", 5, None), None),
        DatastoreClientError::KeyMissing,
    );
    assert_client_error(
        delete_one_request(test_entity(Some(unassigned_key()), "x", 5, None), None),
        DatastoreClientError::KeyMissing,
    );
    let request = delete_one_request(test_entity(Some(assigned_key(5)), "x", 5, Some(2)), None)
        .unwrap();
    assert_eq!(1, request.mutations.len());
    assert_eq!(Some(assigned_key(5)), request.mutations[0].delete);
    assert_eq!(Some(2), request.mutations[0].base_version);
}

#[test]
fn delete_result_errors() {
    assert_client_error(
        delete_one_result(CommitResponse { mutation_results: None }),
        DatastoreClientError::ApiDataError,
    );
    assert_client_error(
        delete_one_result(CommitResponse { mutation_results: Some(vec![]) }),
        DatastoreClientError::DeleteFailed,
    );
    assert_client_error(
        delete_one_result(commit_response(None, None, Some(true))),
        DatastoreClientError::DataConflict,
    );
    assert!(delete_one_result(commit_response(None, None, Some(false))).is_ok());
    assert!(delete_one_result(commit_response(None, None, None)).is_ok());
}

#[test]
fn nested_transactions_are_refused() {
    assert!(TransactionConnection::begin_transaction_check(&None).is_ok());
    assert_client_error(
        TransactionConnection::begin_transaction_check(&Some("txn-1".to_string())),
        DatastoreClientError::TransactionInProgress,
    );
}

#[test]
fn begin_transaction_needs_an_id() {
    assert_client_error(
        TransactionConnection::from_begin_response(BeginTransactionResponse { transaction: None }),
        DatastoreClientError::ApiDataError,
    );
    let txn = TransactionConnection::from_begin_response(BeginTransactionResponse {
        transaction: Some("txn-1".to_string()),
    })
    .unwrap();
    assert_eq!("txn-1", txn.transaction_id);
}

#[test]
fn transaction_queues_mutations_and_commits_them_atomically() {
    let mut txn = TransactionConnection::from_begin_response(BeginTransactionResponse {
        transaction: Some("txn-7".to_string()),
    })
    .unwrap();

    txn.push_save(test_entity(Some(assigned_key(1)), "a", 10, Some(4))).unwrap();
    txn.push_delete(test_entity(Some(assigned_key(2)), "b", 20, Some(9))).unwrap();

    let request = txn.commit_request();
    assert_eq!(2, request.mutations.len());
    assert_eq!(Some("txn-7".to_string()), request.transaction);
    assert_eq!(CommitMode::Transactional, request.mode);

    // The upsert carries its entity and version precondition.
    assert!(request.mutations[0].upsert.is_some());
    assert_eq!(Some(4), request.mutations[0].base_version);
    // The delete carries its key and version precondition.
    assert_eq!(Some(assigned_key(2)), request.mutations[1].delete);
    assert_eq!(Some(9), request.mutations[1].base_version);
}

#[test]
fn transaction_commit_fails_whole_on_any_conflict() {
    let ok_result = MutationResult { key: None, version: Some(2), conflict_detected: Some(false) };
    let conflicted = MutationResult { key: None, version: None, conflict_detected: Some(true) };
    let resp = CommitResponse { mutation_results: Some(vec![ok_result, conflicted]) };
    assert_client_error(
        TransactionConnection::check_commit_response(resp),
        DatastoreClientError::DataConflict,
    );

    let all_ok = CommitResponse {
        mutation_results: Some(vec![
            MutationResult { key: None, version: Some(2), conflict_detected: Some(false) },
            MutationResult { key: None, version: Some(3), conflict_detected: None },
        ]),
    };
    assert!(TransactionConnection::check_commit_response(all_ok).is_ok());

    assert_client_error(
        TransactionConnection::check_commit_response(CommitResponse { mutation_results: None }),
        DatastoreClientError::ApiDataError,
    );
}

#[test]
fn synthesized_key_is_only_kind_and_unassigned_leaf() {
    // An entity with no key at all and one whose key leaf is unassigned both
    // expect assignment; only the first gets a key synthesized.
    let entity = test_entity(None, "x", 1, None);
    let (request, _) = commit_one_request(entity, "Widget", None);
    let upsert = request.mutations[0].upsert.as_ref().unwrap();
    assert_eq!(
        Some(vec![PathElement { kind: Some("Widget".to_string()), id: None, name: None }]),
        upsert.key.as_ref().unwrap().path
    );
}

#[test]
fn name_keyed_entity_commits_as_update() {
    // A name-assigned leaf is just as concrete as an id: committing it does
    // not request key assignment and preserves the key.
    let key = datastorers::IdentifierName::name(
        "TestNameKey",
        Some("test".to_string()),
        KeyPathElement::end(),
    )
    .get_key();
    let entity = test_entity(Some(key.clone()), "String", 0, None);
    assert!(!insert_expected(&entity));
    let (request, is_insert) = commit_one_request(entity, "TestNameKey", None);
    assert!(!is_insert);
    let committed =
        commit_one_result(request, is_insert, commit_response(None, Some(1), None)).unwrap();
    assert_eq!(Some(key), committed.key());
}
