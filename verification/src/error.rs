//! The error taxonomy: four disjoint families, wrapped into one top-level
//! error at the API boundary. All errors are returned to the caller; the
//! library performs no local recovery or silent retry.

use vstd::prelude::*;

verus! {

/// Errors raised while turning a native value into a store value.
#[derive(Debug, Clone, PartialEq, Eq)]
pub enum DatastoreSerializeError {
    /// A timestamp could not be rendered as a wire instant.
    DateTimeError,
    /// A non-empty value was required but the value serialized to nothing.
    NoValueError,
}

/// Errors raised while turning a store value back into a native value.
#[derive(Debug, Clone, PartialEq, Eq)]
pub enum DatastoreDeserializeError {
    /// The store value did not carry the expected tag.
    NoSuchValue,
    /// A blob value held text that is not valid base64.
    Base64DecodeError,
    /// A timestamp value held text that is not a valid wire instant.
    ParseError,
}

/// Structural problems in an entity received from the store.
#[derive(Debug, Clone, PartialEq, Eq)]
pub enum DatastoreParseError {
    /// A required property was absent.
    NoSuchValue,
    /// The entity carried no property map at all.
    NoProperties,
    /// A result slot carried no entity.
    NoResult,
    /// An array value held an item of an unexpected shape.
    InvalidArrayValueFormat,
}

/// Client and protocol errors around lookups, queries, commits and paging.
#[derive(Debug, Clone, PartialEq, Eq)]
pub enum DatastoreClientError {
    /// No entity matched a single-result request.
    NotFound,
    /// More than one entity matched where a single result was expected.
    AmbiguousResult,
    /// The entity carries no usable key, so it cannot be committed.
    KeyMissing,
    /// The store did not hand back an assigned key for an inserted entity.
    KeyAssignmentFailed,
    /// A delete mutation produced no result.
    DeleteFailed,
    /// The store detected a conflicting concurrent write.
    DataConflict,
    /// The store's response lacked data the protocol requires.
    ApiDataError,
    /// A further page was requested after the last page.
    NoMorePages,
    /// A transaction was begun while another was already in progress.
    TransactionInProgress,
}

/// Errors raised while reading an identifier chain out of a key path.
#[derive(Debug, Clone, PartialEq, Eq)]
pub enum DatastoreKeyError {
    /// The entity carries no key at all.
    NoKey,
    /// The key carries no path.
    NoKeyPath,
    /// The key path holds no element where one was required.
    NoKeyPathElement,
    /// A path element carries no kind.
    NoKind,
    /// A path element's kind differs from the kind the chain declares.
    WrongKind { expected: String, found: String },
    /// An id-typed link found a path element without an id.
    ExpectedId,
    /// A name-typed link found a path element without a name.
    ExpectedName,
}

/// The top-level error: one of the four families.
#[derive(Debug, Clone, PartialEq, Eq)]
pub enum DatastorersError {
    ParseError(DatastoreParseError),
    DatastoreClientError(DatastoreClientError),
    DatastoreSerializeError(DatastoreSerializeError),
    DatastoreDeserializeError(DatastoreDeserializeError),
    DatastoreKeyError(DatastoreKeyError),
}

} // verus!
