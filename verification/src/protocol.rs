//! The remote store's request and response shapes, held as plain values: the
//! wire protocol is a given, versioned contract, and this module models
//! exactly the parts the library consumes. The transport converts these to
//! and from its own message types at the process boundary.

use vstd::prelude::*;

use crate::entity::DatastoreEntity;
use crate::entity::DatastoreProperties;
use crate::error::DatastoreParseError;
use crate::error::DatastorersError;
use crate::key::Key;

verus! {

/// An entity as the wire carries it: an optional key and an optional
/// property map.
#[derive(Debug)]
pub struct ApiEntity {
    pub key: Option<Key>,
    pub properties: Option<DatastoreProperties>,
}

impl ApiEntity {
    /// The property map, when present, has unique names.
    pub open spec fn wf(self) -> bool {
        match self.properties {
            Some(p) => p.wf(),
            None => true,
        }
    }
}

/// One slot of a lookup or query result: an entity and its version stamp.
#[derive(Debug)]
pub struct EntityResult {
    pub entity: Option<ApiEntity>,
    pub version: Option<i64>,
}

impl EntityResult {
    pub open spec fn wf(self) -> bool {
        match self.entity {
            Some(e) => e.wf(),
            None => true,
        }
    }
}

/// Why converting a result slot to an entity fails, if it does: a slot
/// without an entity has no result, an entity without a property map has no
/// properties.
pub open spec fn result_entity_error(er: EntityResult) -> Option<DatastorersError> {
    match er.entity {
        None => Some(DatastorersError::ParseError(DatastoreParseError::NoResult)),
        Some(ae) => match ae.properties {
            None => Some(DatastorersError::ParseError(DatastoreParseError::NoProperties)),
            Some(_) => None,
        },
    }
}

/// Whether an entity holds exactly what a result slot carried: its key, its
/// property map, and its version stamp.
pub open spec fn entity_of_result(ent: DatastoreEntity, er: EntityResult) -> bool {
    &&& er.entity matches Some(ae)
    &&& ae.properties matches Some(p)
    &&& ent.spec_key() == (er.entity->Some_0).key
    &&& ent.spec_properties() == (er.entity->Some_0).properties->Some_0
    &&& ent.spec_version() == er.version
}

impl EntityResult {
    /// Turn a result slot into an entity, carrying its version stamp along.
    pub fn into_entity(self) -> (r: Result<DatastoreEntity, DatastorersError>)
        requires
            self.wf(),
        ensures
            match r {
                Ok(ent) => result_entity_error(self) is None && entity_of_result(ent, self)
                    && ent.wf(),
                Err(e) => result_entity_error(self) == Some(e),
            },
    {
        match self.entity {
            None => Err(DatastorersError::ParseError(DatastoreParseError::NoResult)),
            Some(ae) => match ae.properties {
                None => Err(DatastorersError::ParseError(DatastoreParseError::NoProperties)),
                Some(props) => Ok(DatastoreEntity::from(ae.key, props, self.version)),
            },
        }
    }
}

/// What a lookup call answered: the entities found, if any.
#[derive(Debug)]
pub struct LookupResponse {
    pub found: Option<Vec<EntityResult>>,
}

/// The store's word on whether a query's result stream continues past the
/// batch it returned.
#[derive(Debug, Clone, Copy, PartialEq, Eq, Structural)]
pub enum MoreResults {
    NotFinished,
    MoreResultsAfterLimit,
    MoreResultsAfterEndCursor,
    NoMoreResults,
    Unspecified,
}

/// One batch of a query's results.
#[derive(Debug)]
pub struct QueryResultBatch {
    pub entity_results: Option<Vec<EntityResult>>,
    pub end_cursor: Option<String>,
    pub more_results: Option<MoreResults>,
}

/// What a query call answered.
#[derive(Debug)]
pub struct RunQueryResponse {
    pub batch: Option<QueryResultBatch>,
}

/// A write: exactly one of an upsert (with its entity) or a delete (with its
/// key), carrying the entity's version stamp as a concurrency precondition.
#[derive(Debug)]
pub struct Mutation {
    pub upsert: Option<ApiEntity>,
    pub delete: Option<Key>,
    pub base_version: Option<i64>,
}

/// How a commit is applied: inside an explicit transaction, or on its own.
#[derive(Debug, Clone, Copy, PartialEq, Eq, Structural)]
pub enum CommitMode {
    Transactional,
    NonTransactional,
}

/// A commit call: the mutations to apply atomically.
#[derive(Debug)]
pub struct CommitRequest {
    pub mutations: Vec<Mutation>,
    pub transaction: Option<String>,
    pub mode: CommitMode,
}

/// The store's answer to one mutation: the key it assigned (for inserts),
/// the new version stamp, and whether it detected a conflicting write.
#[derive(Debug)]
pub struct MutationResult {
    pub key: Option<Key>,
    pub version: Option<i64>,
    pub conflict_detected: Option<bool>,
}

/// What a commit call answered: one result per mutation submitted.
#[derive(Debug)]
pub struct CommitResponse {
    pub mutation_results: Option<Vec<MutationResult>>,
}

/// What a begin-transaction call answered: the new transaction's id.
#[derive(Debug)]
pub struct BeginTransactionResponse {
    pub transaction: Option<String>,
}

} // verus!
