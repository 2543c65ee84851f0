//! The error taxonomy of the library: what a single query can fail with.

use vstd::prelude::*;

verus! {

/// One entry of the `errors` array of a GraphQL response: the path of
/// the offending field, if the server gave one, and a human-readable
/// message, if the server gave one.
#[derive(Debug)]
pub struct GraphqlError {
    pub path: Option<Vec<String>>,
    pub message: Option<String>,
}

/// What a single query can fail with. Every error is terminal for the
/// query that produced it: nothing is retried at this layer.
#[derive(Debug)]
pub enum ByoError {
    /// The server reported one or more field-level errors. They are
    /// surfaced verbatim, even when partial data was also returned.
    Graphql(Vec<GraphqlError>),
    /// The response parsed but carried no usable payload.
    NoData,
    /// The transport reported a failure: a network-level error or a
    /// non-success HTTP status. The message is the transport's own.
    RequestError(String),
    /// The response body's JSON shape did not match the requested
    /// type. The message is the deserializer's own.
    DeserializationError(String),
}

pub type ByoResult<T> = Result<T, ByoError>;

} // verus!
