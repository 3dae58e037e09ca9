//! The explicit multi-mutation transaction: begin, queue upserts and deletes
//! without touching the store, then commit them atomically in one request.
//! Each queued mutation captures its own version-stamp precondition; if the
//! store reports a conflict on any of them, the whole commit fails and no
//! partial effect is assumed — atomicity is the store's guarantee.

use vstd::prelude::*;

use crate::entity::DatastoreEntity;
use crate::error::DatastoreClientError;
use crate::error::DatastorersError;
use crate::protocol::BeginTransactionResponse;
use crate::protocol::CommitMode;
use crate::protocol::CommitRequest;
use crate::protocol::CommitResponse;
use crate::protocol::Mutation;
use crate::protocol::MutationResult;
use crate::update::upsert_mutation;

verus! {

/// An open transaction: its id, and the mutations queued so far.
#[derive(Debug)]
pub struct TransactionConnection {
    pub transaction_id: String,
    mutations: Vec<Mutation>,
}

/// Whether the store reported a conflict on any mutation of a commit.
pub open spec fn any_conflict(s: Seq<MutationResult>) -> bool {
    exists|i: int| 0 <= i < s.len() && (#[trigger] s[i].conflict_detected) == Some(true)
}

impl TransactionConnection {
    /// The mutations queued so far, in order.
    pub closed spec fn spec_mutations(self) -> Seq<Mutation> {
        self.mutations@
    }

    /// The transaction's id.
    pub closed spec fn spec_transaction_id(self) -> String {
        self.transaction_id
    }

    /// A transaction may only begin where none is in progress: a connection
    /// that already carries a transaction id refuses to nest another.
    pub fn begin_transaction_check(ambient_transaction_id: &Option<String>) -> (r: Result<
        (),
        DatastorersError,
    >)
        ensures
            match r {
                Ok(_) => ambient_transaction_id is None,
                Err(e) => ambient_transaction_id is Some && e
                    == DatastorersError::DatastoreClientError(
                    DatastoreClientError::TransactionInProgress,
                ),
            },
    {
        match ambient_transaction_id {
            Some(_) => Err(
                DatastorersError::DatastoreClientError(DatastoreClientError::TransactionInProgress),
            ),
            None => Ok(()),
        }
    }

    /// Open the transaction the store began: its answer must carry the new
    /// transaction's id.
    pub fn from_begin_response(resp: BeginTransactionResponse) -> (r: Result<
        TransactionConnection,
        DatastorersError,
    >)
        ensures
            match r {
                Ok(t) => resp.transaction matches Some(id) && t.spec_transaction_id() == id
                    && t.spec_mutations() =~= Seq::<Mutation>::empty(),
                Err(e) => resp.transaction is None && e == DatastorersError::DatastoreClientError(
                    DatastoreClientError::ApiDataError,
                ),
            },
    {
        match resp.transaction {
            None => Err(
                DatastorersError::DatastoreClientError(DatastoreClientError::ApiDataError),
            ),
            Some(id) => Ok(TransactionConnection { transaction_id: id, mutations: Vec::new() }),
        }
    }

    /// Queue an upsert of the entity, capturing its version stamp as the
    /// mutation's precondition. The store is not touched.
    pub fn push_save(&mut self, entity: DatastoreEntity) -> (r: Result<(), DatastorersError>)
        ensures
            r is Ok,
            final (self).spec_transaction_id() == old(self).spec_transaction_id(),
            final (self).spec_mutations().len() == old(self).spec_mutations().len() + 1,
            final (self).spec_mutations().take(old(self).spec_mutations().len() as int) == old(
                self,
            ).spec_mutations(),
            final (self).spec_mutations().last().upsert matches Some(ae) && ae.key
                == entity.spec_key() && ae.properties == Some(entity.spec_properties()),
            final (self).spec_mutations().last().delete is None,
            final (self).spec_mutations().last().base_version == entity.spec_version(),
    {
        let mutation = upsert_mutation(entity);
        self.mutations.push(mutation);
        proof {
            assert(self.mutations@.take(self.mutations@.len() - 1) =~= old(self).mutations@);
        }
        Ok(())
    }

    /// Queue a delete of the entity's key, capturing its version stamp as the
    /// mutation's precondition. The store is not touched.
    pub fn push_delete(&mut self, entity: DatastoreEntity) -> (r: Result<(), DatastorersError>)
        ensures
            r is Ok,
            final (self).spec_transaction_id() == old(self).spec_transaction_id(),
            final (self).spec_mutations().len() == old(self).spec_mutations().len() + 1,
            final (self).spec_mutations().take(old(self).spec_mutations().len() as int) == old(
                self,
            ).spec_mutations(),
            final (self).spec_mutations().last().upsert is None,
            final (self).spec_mutations().last().delete == entity.spec_key(),
            final (self).spec_mutations().last().base_version == entity.spec_version(),
    {
        let (key, _properties, version) = entity.into_parts();
        let mutation = Mutation { upsert: None, delete: key, base_version: version };
        self.mutations.push(mutation);
        proof {
            assert(self.mutations@.take(self.mutations@.len() - 1) =~= old(self).mutations@);
        }
        Ok(())
    }

    /// The one request that commits every queued mutation atomically, under
    /// this transaction's id.
    pub fn commit_request(self) -> (r: CommitRequest)
        ensures
            r.mutations@ == self.spec_mutations(),
            r.transaction == Some(self.spec_transaction_id()),
            r.mode == CommitMode::Transactional,
    {
        CommitRequest {
            mutations: self.mutations,
            transaction: Some(self.transaction_id),
            mode: CommitMode::Transactional,
        }
    }

    /// Whether the store's answer commits the transaction: a response without
    /// mutation results is missing data, and a conflict reported on any
    /// mutation fails the whole commit — no partial effect is assumed.
    #[verifier::loop_isolation(false)]
    pub fn check_commit_response(resp: CommitResponse) -> (r: Result<(), DatastorersError>)
        ensures
            match r {
                Ok(_) => resp.mutation_results matches Some(results) && !any_conflict(results@),
                Err(e) => match resp.mutation_results {
                    None => e == DatastorersError::DatastoreClientError(
                        DatastoreClientError::ApiDataError,
                    ),
                    Some(results) => any_conflict(results@) && e
                        == DatastorersError::DatastoreClientError(
                        DatastoreClientError::DataConflict,
                    ),
                },
            },
    {
        let results = match resp.mutation_results {
            None => {
                return Err(
                    DatastorersError::DatastoreClientError(DatastoreClientError::ApiDataError),
                );
            },
            Some(results) => results,
        };
        let mut j: usize = 0;
        while j < results.len()
            invariant
                j <= results@.len(),
                forall|m: int|
                    0 <= m < j ==> (#[trigger] results@[m].conflict_detected) != Some(true),
            decreases results@.len() - j,
        {
            if let Some(conflict) = &results[j].conflict_detected {
                if *conflict {
                    return Err(
                        DatastorersError::DatastoreClientError(DatastoreClientError::DataConflict),
                    );
                }
            }
            j += 1;
        }
        Ok(())
    }
}

} // verus!
