//! The reply to each kind of request, once the cache has answered.

use crate::backend::{FetchOutcome, FetchOutcomeView, RemoveOutcome, StoreOutcome};
use crate::config::{ServiceInfo, ServiceInfoView};
use crate::json::{compact_text, index_document, index_json};
use crate::response::{
    binary_reply, err_500, err_not_found, json_reply, not_found_reply, ok_binary, ok_json,
    ok_result, server_error_reply, success_reply, Response, ResponseView,
};
use vstd::prelude::*;

verus! {

/// The reply that describes the service: status 200 and
/// `{"name": .., "version": ..}`.
pub open spec fn index_reply(info: ServiceInfoView) -> ResponseView {
    json_reply(200, compact_text(index_json(info.name, info.version)))
}

/// The reply to a fetch: the value as it is, or not found, or an internal
/// error.
pub open spec fn fetch_reply(outcome: FetchOutcomeView) -> ResponseView {
    match outcome {
        FetchOutcomeView::Found(value) => binary_reply(value),
        FetchOutcomeView::Absent => not_found_reply(),
        FetchOutcomeView::BackendFailure => server_error_reply(),
    }
}

/// The reply to a store: success or an internal error, and never not
/// found.
pub open spec fn store_reply(outcome: StoreOutcome) -> ResponseView {
    match outcome {
        StoreOutcome::Stored => success_reply(),
        StoreOutcome::BackendFailure => server_error_reply(),
    }
}

/// The reply to a remove: success, or not found where the key held
/// nothing, or an internal error.
pub open spec fn remove_reply(outcome: RemoveOutcome) -> ResponseView {
    match outcome {
        RemoveOutcome::Removed => success_reply(),
        RemoveOutcome::Absent => not_found_reply(),
        RemoveOutcome::BackendFailure => server_error_reply(),
    }
}

/// Describes the service, by name and version.
pub fn req_index(info: &ServiceInfo) -> (reply: Response)
    ensures
        reply@ == index_reply(info@),
{
    ok_json(index_document(info.name.as_str(), info.version.as_str()))
}

/// Answers a `DELETE` of a key with what the cache said to its removal.
pub fn req_delete(outcome: RemoveOutcome) -> (reply: Response)
    ensures
        reply@ == remove_reply(outcome),
{
    match outcome {
        RemoveOutcome::Removed => ok_result(),
        RemoveOutcome::Absent => err_not_found(),
        RemoveOutcome::BackendFailure => err_500(),
    }
}

/// Answers a `GET` of a key with what the cache said to its fetch.
pub fn req_get(outcome: FetchOutcome) -> (reply: Response)
    ensures
        reply@ == fetch_reply(outcome@),
{
    match outcome {
        FetchOutcome::Found(val) => ok_binary(val),
        FetchOutcome::Absent => err_not_found(),
        FetchOutcome::BackendFailure => err_500(),
    }
}

/// Answers a `PUT` of a key with what the cache said to its store.
pub fn req_put(outcome: StoreOutcome) -> (reply: Response)
    ensures
        reply@ == store_reply(outcome),
{
    match outcome {
        StoreOutcome::Stored => ok_result(),
        StoreOutcome::BackendFailure => err_500(),
    }
}

/// Answers a `GET` of a path that does not exist.
pub fn p404() -> (reply: Response)
    ensures
        reply@ == not_found_reply(),
{
    err_not_found()
}

} // verus!
