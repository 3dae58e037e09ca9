//! The single-entity committer. A commit is an insert when the entity's key
//! has no assigned leaf (or there is no key at all, in which case one is
//! synthesized carrying only the kind); otherwise it is an update of the keyed
//! entity. The mutation carries the entity's version stamp as an
//! optimistic-concurrency precondition, and a reported conflict fails the
//! commit — the caller must re-fetch and re-apply, the client never retries.

use vstd::prelude::*;

use crate::entity::DatastoreEntity;
use crate::error::DatastoreClientError;
use crate::error::DatastorersError;
use crate::key::Key;
use crate::key::PathElement;
use crate::protocol::ApiEntity;
use crate::protocol::CommitMode;
use crate::protocol::CommitRequest;
use crate::protocol::CommitResponse;
use crate::protocol::Mutation;

verus! {

/// Whether committing this entity expects the store to assign an identity:
/// it does when the entity has no key, or a key whose leaf is unassigned.
pub open spec fn spec_insert_expected(entity: DatastoreEntity) -> bool {
    match entity.spec_key() {
        None => true,
        Some(k) => !k.spec_leaf_assigned(),
    }
}

/// Whether committing this entity is an insert (the store assigns the
/// identity) rather than an update of an already-keyed entity.
pub fn insert_expected(entity: &DatastoreEntity) -> (r: bool)
    ensures
        r == spec_insert_expected(*entity),
{
    match &entity.key() {
        None => true,
        Some(k) => !k.leaf_assigned(),
    }
}

/// An upsert mutation for the entity as it stands, carrying its version
/// stamp as the concurrency precondition.
pub fn upsert_mutation(entity: DatastoreEntity) -> (r: Mutation)
    ensures
        r.upsert matches Some(ae) && ae.key == entity.spec_key() && ae.properties == Some(
            entity.spec_properties(),
        ),
        r.delete is None,
        r.base_version == entity.spec_version(),
{
    let (key, properties, version) = entity.into_parts();
    Mutation {
        upsert: Some(ApiEntity { key, properties: Some(properties) }),
        delete: None,
        base_version: version,
    }
}

/// The commit request for a single entity. The entity's key is kept as it
/// stands; an entity without a key gets one synthesized, carrying only the
/// kind and an unassigned leaf. Also says whether the commit expects the
/// store to assign an identity.
pub fn commit_one_request(entity: DatastoreEntity, kind: &str, transaction: Option<String>) -> (r: (
    CommitRequest,
    bool,
))
    ensures
        r.1 == spec_insert_expected(entity),
        r.0.mutations@.len() == 1,
        r.0.mutations@[0].delete is None,
        r.0.mutations@[0].base_version == entity.spec_version(),
        r.0.mutations@[0].upsert matches Some(ae) && ae.properties == Some(
            entity.spec_properties(),
        ),
        match entity.spec_key() {
            Some(k) => (r.0.mutations@[0].upsert->Some_0).key == Some(k),
            None => {
                &&& (r.0.mutations@[0].upsert->Some_0).key matches Some(k)
                &&& k@ matches Some(p)
                &&& p.len() == 1
                &&& p[0].id is None
                &&& p[0].name is None
                &&& (p[0].kind matches Some(ks) && ks@ == kind@)
            },
        },
        r.0.transaction == transaction,
        r.0.mode == (if transaction is Some {
            CommitMode::Transactional
        } else {
            CommitMode::NonTransactional
        }),
{
    let is_insert = insert_expected(&entity);
    let (key, properties, version) = entity.into_parts();
    let key = match key {
        Some(k) => k,
        None => {
            let mut path: Vec<PathElement> = Vec::new();
            path.push(PathElement { kind: Some(kind.to_owned()), id: None, name: None });
            Key { path: Some(path) }
        },
    };
    let mode = if transaction.is_some() {
        CommitMode::Transactional
    } else {
        CommitMode::NonTransactional
    };
    let mutation = Mutation {
        upsert: Some(ApiEntity { key: Some(key), properties: Some(properties) }),
        delete: None,
        base_version: version,
    };
    let mut mutations: Vec<Mutation> = Vec::new();
    mutations.push(mutation);
    (CommitRequest { mutations, transaction, mode }, is_insert)
}

/// What a single-entity commit yields, read off the store's response against
/// the request that was sent. Exactly one mutation result is owed: none at
/// all is missing data, an empty list is the failed write, several are
/// ambiguous. A reported conflict fails the commit. The entity handed back is
/// the committed one: its properties unchanged, its version the stamp the
/// store issued, and its key the store-assigned key for an insert — owed for
/// an insert, its absence a failed key assignment — or the original key,
/// preserved, for an update.
pub fn commit_one_result(request: CommitRequest, insert_expected: bool, resp: CommitResponse) -> (r:
    Result<DatastoreEntity, DatastorersError>)
    requires
        request.mutations@.len() == 1,
        request.mutations@[0].upsert matches Some(ae) && ae.properties matches Some(p) && p.wf(),
    ensures
        match r {
            Ok(ent) => {
                &&& resp.mutation_results matches Some(results)
                &&& results@.len() == 1
                &&& !(results@[0].conflict_detected matches Some(true))
                &&& ent.spec_properties() == (request.mutations@[0].upsert->Some_0).properties
                    ->Some_0
                &&& ent.spec_version() == results@[0].version
                &&& ent.wf()
                &&& if insert_expected {
                    results@[0].key matches Some(k) && ent.spec_key() == Some(k)
                } else {
                    ent.spec_key() == (request.mutations@[0].upsert->Some_0).key
                }
            },
            Err(e) => match resp.mutation_results {
                None => e == DatastorersError::DatastoreClientError(
                    DatastoreClientError::ApiDataError,
                ),
                Some(results) => {
                    if results@.len() == 0 {
                        e == DatastorersError::DatastoreClientError(
                            DatastoreClientError::KeyAssignmentFailed,
                        )
                    } else if results@.len() > 1 {
                        e == DatastorersError::DatastoreClientError(
                            DatastoreClientError::AmbiguousResult,
                        )
                    } else if results@[0].conflict_detected matches Some(true) {
                        e == DatastorersError::DatastoreClientError(
                            DatastoreClientError::DataConflict,
                        )
                    } else {
                        insert_expected && results@[0].key is None && e
                            == DatastorersError::DatastoreClientError(
                            DatastoreClientError::KeyAssignmentFailed,
                        )
                    }
                },
            },
        },
{
    let mut results = match resp.mutation_results {
        None => {
            return Err(DatastorersError::DatastoreClientError(DatastoreClientError::ApiDataError));
        },
        Some(results) => results,
    };
    if results.len() == 0 {
        return Err(
            DatastorersError::DatastoreClientError(DatastoreClientError::KeyAssignmentFailed),
        );
    }
    if results.len() > 1 {
        return Err(DatastorersError::DatastoreClientError(DatastoreClientError::AmbiguousResult));
    }
    let result = results.remove(0);
    if let Some(conflict) = result.conflict_detected {
        if conflict {
            return Err(
                DatastorersError::DatastoreClientError(DatastoreClientError::DataConflict),
            );
        }
    }
    let mut mutations = request.mutations;
    let mutation = mutations.remove(0);
    let entity = match mutation.upsert {
        Some(ae) => ae,
        None => {
            proof {
                assert(false);
            }
            return Err(DatastorersError::DatastoreClientError(DatastoreClientError::ApiDataError));
        },
    };
    let properties = match entity.properties {
        Some(p) => p,
        None => {
            proof {
                assert(false);
            }
            return Err(DatastorersError::DatastoreClientError(DatastoreClientError::ApiDataError));
        },
    };
    let key = if insert_expected {
        match result.key {
            Some(k) => Some(k),
            None => {
                return Err(
                    DatastorersError::DatastoreClientError(
                        DatastoreClientError::KeyAssignmentFailed,
                    ),
                );
            },
        }
    } else {
        entity.key
    };
    Ok(DatastoreEntity::from(key, properties, result.version))
}

/// The commit request that deletes the entity. A delete requires a fully
/// assigned key: an entity without one, or whose key's leaf is unassigned,
/// cannot be deleted.
pub fn delete_one_request(entity: DatastoreEntity, transaction: Option<String>) -> (r: Result<
    CommitRequest,
    DatastorersError,
>)
    ensures
        match r {
            Ok(req) => {
                &&& entity.spec_key() matches Some(k)
                &&& k.spec_leaf_assigned()
                &&& req.mutations@.len() == 1
                &&& req.mutations@[0].delete == entity.spec_key()
                &&& req.mutations@[0].upsert is None
                &&& req.mutations@[0].base_version == entity.spec_version()
                &&& req.transaction == transaction
                &&& req.mode == (if transaction is Some {
                    CommitMode::Transactional
                } else {
                    CommitMode::NonTransactional
                })
            },
            Err(e) => {
                &&& !(entity.spec_key() matches Some(k) && k.spec_leaf_assigned())
                &&& e == DatastorersError::DatastoreClientError(DatastoreClientError::KeyMissing)
            },
        },
{
    let (key, _properties, version) = entity.into_parts();
    let key = match key {
        Some(k) => k,
        None => {
            return Err(DatastorersError::DatastoreClientError(DatastoreClientError::KeyMissing));
        },
    };
    if !key.leaf_assigned() {
        return Err(DatastorersError::DatastoreClientError(DatastoreClientError::KeyMissing));
    }
    let mode = if transaction.is_some() {
        CommitMode::Transactional
    } else {
        CommitMode::NonTransactional
    };
    let mutation = Mutation { upsert: None, delete: Some(key), base_version: version };
    let mut mutations: Vec<Mutation> = Vec::new();
    mutations.push(mutation);
    Ok(CommitRequest { mutations, transaction, mode })
}

/// What a single-entity delete yields. Exactly one mutation result is owed:
/// none at all is missing data, an empty list is the failed delete, several
/// are ambiguous; a reported conflict fails the delete. No key is expected
/// back.
pub fn delete_one_result(resp: CommitResponse) -> (r: Result<(), DatastorersError>)
    ensures
        match r {
            Ok(_) => {
                &&& resp.mutation_results matches Some(results)
                &&& results@.len() == 1
                &&& !(results@[0].conflict_detected matches Some(true))
            },
            Err(e) => match resp.mutation_results {
                None => e == DatastorersError::DatastoreClientError(
                    DatastoreClientError::ApiDataError,
                ),
                Some(results) => {
                    if results@.len() == 0 {
                        e == DatastorersError::DatastoreClientError(
                            DatastoreClientError::DeleteFailed,
                        )
                    } else if results@.len() > 1 {
                        e == DatastorersError::DatastoreClientError(
                            DatastoreClientError::AmbiguousResult,
                        )
                    } else {
                        results@[0].conflict_detected matches Some(true) && e
                            == DatastorersError::DatastoreClientError(
                            DatastoreClientError::DataConflict,
                        )
                    }
                },
            },
        },
{
    let results = match resp.mutation_results {
        None => {
            return Err(DatastorersError::DatastoreClientError(DatastoreClientError::ApiDataError));
        },
        Some(results) => results,
    };
    if results.len() == 0 {
        return Err(DatastorersError::DatastoreClientError(DatastoreClientError::DeleteFailed));
    }
    if results.len() > 1 {
        return Err(DatastorersError::DatastoreClientError(DatastoreClientError::AmbiguousResult));
    }
    if let Some(conflict) = &results[0].conflict_detected {
        if *conflict {
            return Err(
                DatastorersError::DatastoreClientError(DatastoreClientError::DataConflict),
            );
        }
    }
    Ok(())
}

} // verus!
