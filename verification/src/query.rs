//! The query engine: a builder accumulates property predicates (conjunctive,
//! AND-only), an ordering list and a limit into a query descriptor; responses
//! come back as batches with an opaque continuation cursor, and a collection
//! walks further pages by re-issuing its query from the cursor.

use vstd::prelude::*;

use crate::entity::DatastoreEntity;
use crate::error::DatastoreClientError;
use crate::error::DatastorersError;
use crate::protocol::entity_of_result;
use crate::protocol::result_entity_error;
use crate::protocol::EntityResult;
use crate::protocol::LookupResponse;
use crate::protocol::MoreResults;
use crate::protocol::RunQueryResponse;
use crate::serialize::Serialize;
use crate::values::value_view;
use crate::values::DatastoreValue;

verus! {

/// The page size a query falls back to when neither the call nor the kind
/// configures one.
pub const DEFAULT_PAGE_SIZE: i32 = 50;

/// A comparison a property predicate applies.
#[derive(Debug, Clone, Copy, PartialEq, Eq, Structural)]
pub enum Operator {
    Equal,
    GreaterThan,
    GreaterThanOrEqual,
    LessThan,
    LessThanOrEqual,
}

/// A direction a result ordering applies.
#[derive(Debug, Clone, Copy, PartialEq, Eq, Structural)]
pub enum Order {
    Ascending,
    Descending,
}

/// One ordering entry: a property and a direction.
#[derive(Debug, PartialEq, Eq)]
pub struct PropertyOrder {
    pub property: String,
    pub direction: Order,
}

/// One property predicate: property, comparison, and the store value the
/// property is compared against.
#[derive(Debug)]
pub struct DatastorersPropertyFilterItem {
    pub property: String,
    pub operator: Operator,
    pub value: DatastoreValue,
}

/// The predicates a query accumulates.
#[derive(Debug)]
pub struct DatastorersPropertyFilter {
    pub filter_items: Vec<DatastorersPropertyFilterItem>,
}

impl DatastorersPropertyFilter {
    pub fn new() -> (r: DatastorersPropertyFilter)
        ensures
            r.filter_items@ =~= Seq::<DatastorersPropertyFilterItem>::empty(),
    {
        DatastorersPropertyFilter { filter_items: Vec::new() }
    }

    /// Add one predicate to the conjunction.
    pub fn push(&mut self, property: String, operator: Operator, value: DatastoreValue)
        ensures
            final (self).filter_items@ == old(self).filter_items@.push(
                (DatastorersPropertyFilterItem { property, operator, value }),
            ),
    {
        self.filter_items.push(DatastorersPropertyFilterItem { property, operator, value });
    }
}

/// A query's filter: a single property predicate, or an AND-only conjunction
/// of several. There is no OR and no nesting beyond this one level.
#[derive(Debug)]
pub enum Filter {
    Property(DatastorersPropertyFilterItem),
    CompositeAnd(Vec<DatastorersPropertyFilterItem>),
}

impl DatastorersPropertyFilter {
    /// The filter these predicates make: none for zero predicates, the
    /// predicate itself for one, an AND conjunction for more.
    pub fn into_filter(self) -> (r: Option<Filter>)
        ensures
            self.filter_items@.len() == 0 ==> r is None,
            self.filter_items@.len() == 1 ==> (r matches Some(Filter::Property(item)) && item
                == self.filter_items@[0]),
            self.filter_items@.len() >= 2 ==> (r matches Some(Filter::CompositeAnd(items))
                && items@ == self.filter_items@),
    {
        let mut items = self.filter_items;
        if items.len() == 0 {
            None
        } else if items.len() == 1 {
            let item = items.remove(0);
            Some(Filter::Property(item))
        } else {
            Some(Filter::CompositeAnd(items))
        }
    }
}

/// A query descriptor: what the store is asked to run. The kind is always
/// set; filter, ordering, limit and start cursor are as accumulated.
#[derive(Debug)]
pub struct Query {
    pub kind: String,
    pub filter: Option<Filter>,
    pub order: Vec<PropertyOrder>,
    pub limit: Option<i32>,
    pub start_cursor: Option<String>,
}

/// A typed query under construction: predicates, ordering and limit over one
/// kind, with the kind's configured page size as the limit's fallback.
#[derive(Debug)]
pub struct DatastorersQuery {
    pub kind: String,
    pub filter: DatastorersPropertyFilter,
    pub limit: Option<i32>,
    pub order: Vec<PropertyOrder>,
    pub default_page_size: Option<i32>,
}

impl DatastorersQuery {
    /// A fresh query over a kind; `default_page_size` is the kind's
    /// configured page size, if it has one.
    pub fn new(kind: String, default_page_size: Option<i32>) -> (r: DatastorersQuery)
        ensures
            r.kind == kind,
            r.filter.filter_items@ =~= Seq::<DatastorersPropertyFilterItem>::empty(),
            r.limit is None,
            r.order@ =~= Seq::<PropertyOrder>::empty(),
            r.default_page_size == default_page_size,
    {
        DatastorersQuery {
            kind,
            filter: DatastorersPropertyFilter::new(),
            limit: None,
            order: Vec::new(),
            default_page_size,
        }
    }

    /// Add a property predicate. The native comparison value is serialized;
    /// a value that fails to serialize fails the call, and one that
    /// serializes to nothing (an absent optional) cannot be filtered on.
    pub fn filter<T: Serialize>(self, property_name: String, operator: Operator, value: T) -> (r:
        Result<DatastorersQuery, DatastorersError>)
        ensures
            match r {
                Ok(q) => {
                    &&& value.ser_spec() matches Ok(Some(vv))
                    &&& q.filter.filter_items@.len() == self.filter.filter_items@.len() + 1
                    &&& q.filter.filter_items@.take(self.filter.filter_items@.len() as int)
                        == self.filter.filter_items@
                    &&& q.filter.filter_items@.last().property == property_name
                    &&& q.filter.filter_items@.last().operator == operator
                    &&& value_view(q.filter.filter_items@.last().value) == (
                    value.ser_spec()->Ok_0->Some_0)
                    &&& q.kind == self.kind
                    &&& q.limit == self.limit
                    &&& q.order == self.order
                    &&& q.default_page_size == self.default_page_size
                },
                Err(e) => match value.ser_spec() {
                    Ok(Some(_)) => false,
                    Ok(None) => e == DatastorersError::DatastoreSerializeError(
                        crate::error::DatastoreSerializeError::NoValueError,
                    ),
                    Err(se) => e == DatastorersError::DatastoreSerializeError(se),
                },
            },
    {
        let ghost items0 = self.filter.filter_items@;
        match value.serialize() {
            Err(e) => Err(DatastorersError::DatastoreSerializeError(e)),
            Ok(None) => Err(
                DatastorersError::DatastoreSerializeError(
                    crate::error::DatastoreSerializeError::NoValueError,
                ),
            ),
            Ok(Some(ds_value)) => {
                let mut q = self;
                q.filter.push(property_name, operator, ds_value);
                proof {
                    assert(q.filter.filter_items@.take(items0.len() as int) =~= items0);
                }
                Ok(q)
            },
        }
    }

    /// Set the query's result limit for this call.
    pub fn limit(self, limit: i32) -> (r: DatastorersQuery)
        ensures
            r.limit == Some(limit),
            r.kind == self.kind,
            r.filter == self.filter,
            r.order == self.order,
            r.default_page_size == self.default_page_size,
    {
        DatastorersQuery { limit: Some(limit), ..self }
    }

    /// Append one ordering entry.
    pub fn order_by(self, property_name: String, order: Order) -> (r: DatastorersQuery)
        ensures
            r.order@ == self.order@.push(
                (PropertyOrder { property: property_name, direction: order }),
            ),
            r.kind == self.kind,
            r.filter == self.filter,
            r.limit == self.limit,
            r.default_page_size == self.default_page_size,
    {
        let mut q = self;
        q.order.push(PropertyOrder { property: property_name, direction: order });
        q
    }

    /// The limit a fetch runs at: the call's limit, else the kind's page
    /// size, else the global default.
    pub open spec fn effective_limit(self) -> i32 {
        match self.limit {
            Some(l) => l,
            None => match self.default_page_size {
                Some(p) => p,
                None => DEFAULT_PAGE_SIZE,
            },
        }
    }

    /// The query descriptor a paged fetch issues.
    pub fn into_query(self) -> (r: Query)
        ensures
            r.kind == self.kind,
            self.filter.filter_items@.len() == 0 ==> r.filter is None,
            self.filter.filter_items@.len() == 1 ==> (r.filter matches Some(Filter::Property(item))
                && item == self.filter.filter_items@[0]),
            self.filter.filter_items@.len() >= 2 ==> (r.filter matches Some(
                Filter::CompositeAnd(items),
            ) && items@ == self.filter.filter_items@),
            r.order == self.order,
            r.limit == Some(self.effective_limit()),
            r.start_cursor is None,
    {
        let limit: i32 = match self.limit {
            Some(l) => l,
            None => match self.default_page_size {
                Some(p) => p,
                None => DEFAULT_PAGE_SIZE,
            },
        };
        Query {
            kind: self.kind,
            filter: self.filter.into_filter(),
            order: self.order,
            limit: Some(limit),
            start_cursor: None,
        }
    }

    /// The query descriptor a single-result fetch issues: the filter over the
    /// kind, at limit 1, with no ordering.
    pub fn into_single_query(self) -> (r: Query)
        ensures
            r.kind == self.kind,
            self.filter.filter_items@.len() == 0 ==> r.filter is None,
            self.filter.filter_items@.len() == 1 ==> (r.filter matches Some(Filter::Property(item))
                && item == self.filter.filter_items@[0]),
            self.filter.filter_items@.len() >= 2 ==> (r.filter matches Some(
                Filter::CompositeAnd(items),
            ) && items@ == self.filter.filter_items@),
            r.order@ =~= Seq::<PropertyOrder>::empty(),
            r.limit == Some(1i32),
            r.start_cursor is None,
    {
        Query {
            kind: self.kind,
            filter: self.filter.into_filter(),
            order: Vec::new(),
            limit: Some(1),
            start_cursor: None,
        }
    }
}

/// What a lookup for a single key yields: the entity when the store found
/// exactly one, `NotFound` on none, `AmbiguousResult` on several.
pub fn lookup_one_result(resp: LookupResponse) -> (r: Result<DatastoreEntity, DatastorersError>)
    requires
        resp.found matches Some(v) ==> forall|i: int|
            0 <= i < v@.len() ==> (#[trigger] v@[i]).wf(),
    ensures
        match r {
            Ok(ent) => {
                &&& resp.found matches Some(v)
                &&& v@.len() == 1
                &&& entity_of_result(ent, v@[0])
                &&& ent.wf()
            },
            Err(e) => match resp.found {
                None => e == DatastorersError::DatastoreClientError(DatastoreClientError::NotFound),
                Some(v) => {
                    if v@.len() == 0 {
                        e == DatastorersError::DatastoreClientError(DatastoreClientError::NotFound)
                    } else if v@.len() == 1 {
                        result_entity_error(v@[0]) == Some(e)
                    } else {
                        e == DatastorersError::DatastoreClientError(
                            DatastoreClientError::AmbiguousResult,
                        )
                    }
                },
            },
        },
{
    match resp.found {
        Some(mut found) => {
            if found.len() == 0 {
                Err(DatastorersError::DatastoreClientError(DatastoreClientError::NotFound))
            } else if found.len() == 1 {
                let res = found.remove(0);
                res.into_entity()
            } else {
                Err(DatastorersError::DatastoreClientError(DatastoreClientError::AmbiguousResult))
            }
        },
        None => Err(DatastorersError::DatastoreClientError(DatastoreClientError::NotFound)),
    }
}

/// What a limit-1 query yields: the entity when the batch holds exactly one
/// result and the store reports the stream finished. A batch that the store
/// says may continue is ambiguous even with a single row, because further
/// candidates may exist beyond the page.
pub fn query_one_result(resp: RunQueryResponse) -> (r: Result<DatastoreEntity, DatastorersError>)
    requires
        resp.batch matches Some(b) && b.entity_results matches Some(v) ==> forall|i: int|
            0 <= i < v@.len() ==> (#[trigger] v@[i]).wf(),
    ensures
        match r {
            Ok(ent) => {
                &&& resp.batch matches Some(b)
                &&& b.more_results == Some(MoreResults::NoMoreResults)
                &&& b.entity_results matches Some(v)
                &&& v@.len() == 1
                &&& entity_of_result(ent, v@[0])
                &&& ent.wf()
            },
            Err(e) => match resp.batch {
                None => e == DatastorersError::DatastoreClientError(DatastoreClientError::NotFound),
                Some(b) => match b.more_results {
                    None => e == DatastorersError::DatastoreClientError(
                        DatastoreClientError::ApiDataError,
                    ),
                    Some(more) => {
                        if more != MoreResults::NoMoreResults {
                            e == DatastorersError::DatastoreClientError(
                                DatastoreClientError::AmbiguousResult,
                            )
                        } else {
                            match b.entity_results {
                                None => e == DatastorersError::DatastoreClientError(
                                    DatastoreClientError::NotFound,
                                ),
                                Some(v) => {
                                    if v@.len() == 0 {
                                        e == DatastorersError::DatastoreClientError(
                                            DatastoreClientError::NotFound,
                                        )
                                    } else if v@.len() == 1 {
                                        result_entity_error(v@[0]) == Some(e)
                                    } else {
                                        e == DatastorersError::DatastoreClientError(
                                            DatastoreClientError::AmbiguousResult,
                                        )
                                    }
                                },
                            }
                        }
                    },
                },
            },
        },
{
    match resp.batch {
        Some(batch) => {
            match batch.more_results {
                None => Err(
                    DatastorersError::DatastoreClientError(DatastoreClientError::ApiDataError),
                ),
                Some(more) => {
                    if !matches!(more, MoreResults::NoMoreResults) {
                        Err(
                            DatastorersError::DatastoreClientError(
                                DatastoreClientError::AmbiguousResult,
                            ),
                        )
                    } else {
                        match batch.entity_results {
                            Some(mut found) => {
                                if found.len() == 0 {
                                    Err(
                                        DatastorersError::DatastoreClientError(
                                            DatastoreClientError::NotFound,
                                        ),
                                    )
                                } else if found.len() == 1 {
                                    let res = found.remove(0);
                                    res.into_entity()
                                } else {
                                    Err(
                                        DatastorersError::DatastoreClientError(
                                            DatastoreClientError::AmbiguousResult,
                                        ),
                                    )
                                }
                            },
                            None => Err(
                                DatastorersError::DatastoreClientError(
                                    DatastoreClientError::NotFound,
                                ),
                            ),
                        }
                    }
                },
            }
        },
        None => Err(DatastorersError::DatastoreClientError(DatastoreClientError::NotFound)),
    }
}

/// The first conversion error among a batch's result slots, if any.
pub open spec fn first_result_error(s: Seq<EntityResult>) -> Option<DatastorersError>
    decreases s.len(),
{
    if s.len() == 0 {
        None
    } else {
        match result_entity_error(s[0]) {
            Some(e) => Some(e),
            None => first_result_error(s.drop_first()),
        }
    }
}

/// A page of query results: the entities, the query they answered, the
/// continuation cursor, and whether the store reported more results beyond
/// this page.
#[derive(Debug)]
pub struct DatastoreEntityCollection {
    pub entities: Vec<DatastoreEntity>,
    pub query: Option<Query>,
    pub end_cursor: Option<String>,
    pub has_more_results: bool,
}

impl DatastoreEntityCollection {
    /// An empty page with nothing to continue from.
    pub fn empty() -> (r: DatastoreEntityCollection)
        ensures
            r.entities@ =~= Seq::<DatastoreEntity>::empty(),
            r.query is None,
            r.end_cursor is None,
            r.has_more_results == false,
    {
        DatastoreEntityCollection {
            entities: Vec::new(),
            query: None,
            end_cursor: None,
            has_more_results: false,
        }
    }

    /// Assemble a page from its parts.
    pub fn from_result(
        entities: Vec<DatastoreEntity>,
        query: Query,
        end_cursor: String,
        has_more_results: bool,
    ) -> (r: DatastoreEntityCollection)
        ensures
            r.entities == entities,
            r.query == Some(query),
            r.end_cursor == Some(end_cursor),
            r.has_more_results == has_more_results,
    {
        DatastoreEntityCollection {
            entities,
            query: Some(query),
            end_cursor: Some(end_cursor),
            has_more_results,
        }
    }

    /// The query that fetches the next page: this page's query, re-issued
    /// from this page's end cursor. Asking past the last page fails
    /// `NoMorePages`; a page that lost its query or cursor cannot continue.
    pub fn next_page_query(self) -> (r: Result<Query, DatastorersError>)
        ensures
            match r {
                Ok(q) => {
                    &&& self.has_more_results
                    &&& self.query matches Some(q0)
                    &&& self.end_cursor matches Some(c)
                    &&& q.kind == q0.kind
                    &&& q.filter == q0.filter
                    &&& q.order == q0.order
                    &&& q.limit == q0.limit
                    &&& q.start_cursor == Some(c)
                },
                Err(e) => {
                    if !self.has_more_results {
                        e == DatastorersError::DatastoreClientError(
                            DatastoreClientError::NoMorePages,
                        )
                    } else if self.query is None || self.end_cursor is None {
                        e == DatastorersError::DatastoreClientError(
                            DatastoreClientError::ApiDataError,
                        )
                    } else {
                        false
                    }
                },
            },
    {
        if !self.has_more_results {
            return Err(DatastorersError::DatastoreClientError(DatastoreClientError::NoMorePages));
        }
        match self.query {
            None => Err(DatastorersError::DatastoreClientError(DatastoreClientError::ApiDataError)),
            Some(mut query) => match self.end_cursor {
                None => Err(
                    DatastorersError::DatastoreClientError(DatastoreClientError::ApiDataError),
                ),
                Some(cursor) => {
                    query.start_cursor = Some(cursor);
                    Ok(query)
                },
            },
        }
    }
}

/// What a paged query yields: the batch's entities as a page that can be
/// continued from its cursor. The store reporting anything but "no more
/// results" means a further page may exist; a batch without that report, or
/// without a cursor, is missing required pagination metadata. A response with
/// no result list at all yields an empty page that cannot be continued.
#[verifier::loop_isolation(false)]
pub fn page_from_response(query: Query, resp: RunQueryResponse) -> (r: Result<
    DatastoreEntityCollection,
    DatastorersError,
>)
    requires
        resp.batch matches Some(b) && b.entity_results matches Some(v) ==> forall|i: int|
            0 <= i < v@.len() ==> (#[trigger] v@[i]).wf(),
    ensures
        match r {
            Ok(coll) => {
                &&& resp.batch matches Some(b)
                &&& b.more_results matches Some(more)
                &&& match b.entity_results {
                    Some(v) => {
                        &&& b.end_cursor matches Some(c)
                        &&& first_result_error(v@) is None
                        &&& coll.entities@.len() == v@.len()
                        &&& forall|j: int|
                            0 <= j < v@.len() ==> entity_of_result(
                                #[trigger] coll.entities@[j],
                                v@[j],
                            ) && coll.entities@[j].wf()
                        &&& coll.query == Some(query)
                        &&& coll.end_cursor == Some(c)
                        &&& coll.has_more_results == (more != MoreResults::NoMoreResults)
                    },
                    None => {
                        &&& coll.entities@.len() == 0
                        &&& coll.query is None
                        &&& coll.end_cursor is None
                        &&& coll.has_more_results == false
                    },
                }
            },
            Err(e) => match resp.batch {
                None => e == DatastorersError::DatastoreClientError(DatastoreClientError::NotFound),
                Some(b) => {
                    if b.more_results is None || b.end_cursor is None {
                        e == DatastorersError::DatastoreClientError(
                            DatastoreClientError::ApiDataError,
                        )
                    } else {
                        b.entity_results matches Some(v) && first_result_error(v@) == Some(e)
                    }
                },
            },
        },
{
    match resp.batch {
        None => Err(DatastorersError::DatastoreClientError(DatastoreClientError::NotFound)),
        Some(batch) => {
            let more = match batch.more_results {
                None => {
                    return Err(
                        DatastorersError::DatastoreClientError(DatastoreClientError::ApiDataError),
                    );
                },
                Some(m) => m,
            };
            let has_more_results = !matches!(more, MoreResults::NoMoreResults);
            let end_cursor = match batch.end_cursor {
                None => {
                    return Err(
                        DatastorersError::DatastoreClientError(DatastoreClientError::ApiDataError),
                    );
                },
                Some(c) => c,
            };
            match batch.entity_results {
                None => Ok(DatastoreEntityCollection::empty()),
                Some(found) => {
                    let ghost orig = found@;
                    let mut rest = found;
                    let mut mapped: Vec<DatastoreEntity> = Vec::new();
                    while rest.len() > 0
                        invariant
                            orig =~= orig.take(orig.len() - rest@.len()) + rest@,
                            mapped@.len() == orig.len() - rest@.len(),
                            first_result_error(orig) == first_result_error(rest@),
                            forall|j: int|
                                0 <= j < mapped@.len() ==> entity_of_result(
                                    #[trigger] mapped@[j],
                                    orig[j],
                                ) && mapped@[j].wf(),
                        decreases rest@.len(),
                    {
                        let ghost pre = rest@;
                        let ghost k = orig.len() - pre.len();
                        let res = rest.remove(0);
                        proof {
                            assert(pre.remove(0) =~= pre.drop_first());
                            assert(orig[k as int] == res);
                        }
                        match res.into_entity() {
                            Ok(ent) => {
                                mapped.push(ent);
                            },
                            Err(e) => {
                                proof {
                                    assert(first_result_error(pre) == Some(e));
                                }
                                return Err(e);
                            },
                        }
                    }
                    proof {
                        assert(first_result_error(rest@) is None);
                        assert(orig.take(orig.len() as int) =~= orig);
                    }
                    Ok(
                        DatastoreEntityCollection::from_result(
                            mapped,
                            query,
                            end_cursor,
                            has_more_results,
                        ),
                    )
                },
            }
        },
    }
}

} // verus!
