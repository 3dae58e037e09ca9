//! A typed data-access layer for a schema-less, key/property cloud entity
//! store. Native values are converted to and from a tagged store value through
//! a bidirectional codec, entity identities are hierarchical key paths, queries
//! are filter/order/limit descriptors walked through cursor pagination, and
//! writes are optimistically-concurrent mutations committed server-side.
//!
//! The library holds the store's data model as plain values and verifies the
//! logic over it; the network transport around it hands requests out and
//! responses back as values of these types.

pub mod bytes;
pub mod datetime;
pub mod deserialize;
pub mod entity;
pub mod error;
pub mod key;
pub mod protocol;
pub mod query;
pub mod serialize;
pub mod transaction;
pub mod update;
pub mod values;

pub use crate::error::DatastoreClientError;
pub use crate::error::DatastoreDeserializeError;
pub use crate::error::DatastoreKeyError;
pub use crate::error::DatastoreParseError;
pub use crate::error::DatastoreSerializeError;
pub use crate::error::DatastorersError;
pub use crate::bytes::Bytes;
pub use crate::datetime::Timestamp;
pub use crate::entity::DatastoreEntity;
pub use crate::entity::DatastoreProperties;
pub use crate::entity::EntityMeta;
pub use crate::key::Identifier;
pub use crate::key::IdentifierId;
pub use crate::key::IdentifierName;
pub use crate::key::IdentifierNone;
pub use crate::key::Key;
pub use crate::key::KeyPathElement;
pub use crate::key::PathElement;
pub use crate::query::DatastoreEntityCollection;
pub use crate::query::DatastorersQuery;
pub use crate::query::Operator;
pub use crate::query::Order;
pub use crate::query::Query;
pub use crate::transaction::TransactionConnection;
pub use crate::values::DatastoreValue;
pub use crate::values::DoubleBits;
