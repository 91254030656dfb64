use vstd::prelude::*;

verus! {

/// Errors reported by the bindings.
#[derive(Debug, PartialEq, Eq)]
pub enum DojoError {
    /// The indexer could not be reached.
    ConnectionError,
    /// An offchain message could not be published.
    PublishError,
    /// A query failed; `message` carries the client's description of the failure.
    QueryError { message: String },
    /// A subscription could not be opened, or the id to cancel is unknown.
    SubscriptionError,
    /// An argument (a field element or a token id) is not well formed.
    InvalidInput,
}

} // verus!
