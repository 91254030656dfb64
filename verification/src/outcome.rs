use vstd::prelude::*;

use crate::error::DojoError;

verus! {

/// The kinds of request the bindings send to the indexer; each reports its
/// failures in its own way.
#[derive(Debug, Clone, Copy, PartialEq, Eq)]
pub enum RequestKind {
    /// Opening a connection to the indexer.
    Connect,
    /// Publishing one or several offchain messages.
    Publish,
    /// Any query (worlds, entities, tokens, controllers, SQL, search, ...).
    Query,
    /// Opening an update stream.
    Subscribe,
}

/// `e` is the error reported when a request of `kind` fails and the client
/// describes the failure as `message`: only query failures keep the description.
pub open spec fn is_failure_for(kind: RequestKind, message: Seq<char>, e: DojoError) -> bool {
    match kind {
        RequestKind::Connect => e == DojoError::ConnectionError,
        RequestKind::Publish => e == DojoError::PublishError,
        RequestKind::Query => e matches DojoError::QueryError { message: m } && m@ == message,
        RequestKind::Subscribe => e == DojoError::SubscriptionError,
    }
}

/// The error reported when a request of `kind` fails with the client's
/// description `message`.
pub fn failure(kind: RequestKind, message: String) -> (e: DojoError)
    ensures
        is_failure_for(kind, message@, e),
        kind == RequestKind::Connect ==> e == DojoError::ConnectionError,
        kind == RequestKind::Publish ==> e == DojoError::PublishError,
        kind == RequestKind::Query ==> (e matches DojoError::QueryError { message: m } && m@ == message@),
        kind == RequestKind::Subscribe ==> e == DojoError::SubscriptionError,
{
    match kind {
        RequestKind::Connect => DojoError::ConnectionError,
        RequestKind::Publish => DojoError::PublishError,
        RequestKind::Query => DojoError::QueryError { message },
        RequestKind::Subscribe => DojoError::SubscriptionError,
    }
}

/// Turns what the client answered to a request of `kind` into what the
/// bindings return: a success is passed on unchanged, a failure (given by the
/// client's description of it) becomes the error of that kind of request.
pub fn settle<T>(kind: RequestKind, answer: Result<T, String>) -> (r: Result<T, DojoError>)
    ensures
        answer is Ok ==> r == Ok::<T, DojoError>(answer->Ok_0),
        answer is Err ==> (r is Err && is_failure_for(kind, answer->Err_0@, r->Err_0)),
        answer is Err && kind == RequestKind::Connect ==> r == Err::<T, DojoError>(DojoError::ConnectionError),
        answer is Err && kind == RequestKind::Publish ==> r == Err::<T, DojoError>(DojoError::PublishError),
        answer is Err && kind == RequestKind::Query ==> (r matches Err(DojoError::QueryError { message: m })
            && m@ == answer->Err_0@),
        answer is Err && kind == RequestKind::Subscribe ==> r == Err::<T, DojoError>(DojoError::SubscriptionError),
{
    match answer {
        Ok(v) => Ok(v),
        Err(message) => Err(failure(kind, message)),
    }
}

/// Each kind of failed request has exactly one report, whatever the client's
/// description: a failed connection is a connection error, a failed
/// publication a publish error, a failed subscription a subscription error,
/// and a failed query a query error that carries the description unchanged.
pub proof fn law_failure_reports(message: Seq<char>, e: DojoError)
    ensures
        is_failure_for(RequestKind::Connect, message, e) <==> e == DojoError::ConnectionError,
        is_failure_for(RequestKind::Publish, message, e) <==> e == DojoError::PublishError,
        is_failure_for(RequestKind::Subscribe, message, e) <==> e == DojoError::SubscriptionError,
        is_failure_for(RequestKind::Query, message, e) <==> (e matches DojoError::QueryError { message: m }
            && m@ == message),
{
}

} // verus!
