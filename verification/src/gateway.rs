//! One request, from its arrival to the one thing that has to happen next.
//!
//! The gateway decides and the server acts: `begin` says what a request
//! calls for, which is either a reply that can go out at once or a single
//! operation on the cache. The server performs the operation, holding the
//! cache for itself while it does, and hands the outcome to the handler of
//! that operation, which gives the reply.

use crate::config::{ServiceInfo, ServiceInfoView};
use crate::handlers::{index_reply, p404, req_index};
use crate::key::CacheKey;
use crate::response::{
    method_not_allowed, method_not_allowed_reply, not_found_reply, Response, ResponseView,
};
use crate::router::{route, route_of, Method, Route, RouteView};
use vstd::prelude::*;

verus! {

/// The expiry that tells the cache to keep a value until it is removed.
pub const NO_EXPIRY: u32 = 0;

/// What has to happen next for a request.
#[derive(Clone, Debug, PartialEq, Eq)]
pub enum Action {
    /// Send this reply; the cache is not involved.
    Reply(Response),
    /// Fetch the value of `key`, then reply with `req_get`.
    Fetch { key: CacheKey },
    /// Store `value` under `key` with `expiry`, then reply with `req_put`.
    Store { key: CacheKey, value: Vec<u8>, expiry: u32 },
    /// Remove `key`, then reply with `req_delete`.
    Remove { key: CacheKey },
}

/// What an `Action` holds.
pub enum ActionView {
    Reply(ResponseView),
    Fetch { key: Seq<char> },
    Store { key: Seq<char>, value: Seq<u8>, expiry: int },
    Remove { key: Seq<char> },
}

impl View for Action {
    type V = ActionView;

    open spec fn view(&self) -> ActionView {
        match self {
            Action::Reply(reply) => ActionView::Reply(reply@),
            Action::Fetch { key } => ActionView::Fetch { key: key@ },
            Action::Store { key, value, expiry } => ActionView::Store {
                key: key@,
                value: value@,
                expiry: *expiry as int,
            },
            Action::Remove { key } => ActionView::Remove { key: key@ },
        }
    }
}

/// What a route calls for. A store hands the whole body of the request to
/// the cache as the value, without an expiry.
pub open spec fn action_of_route(info: ServiceInfoView, route: RouteView, body: Seq<u8>) -> ActionView {
    match route {
        RouteView::Index => ActionView::Reply(index_reply(info)),
        RouteView::Fetch(key) => ActionView::Fetch { key },
        RouteView::Store(key) => ActionView::Store { key, value: body, expiry: 0 },
        RouteView::Remove(key) => ActionView::Remove { key },
        RouteView::NotFound => ActionView::Reply(not_found_reply()),
        RouteView::MethodNotAllowed => ActionView::Reply(method_not_allowed_reply()),
    }
}

/// What a request calls for.
pub open spec fn action_of(
    info: ServiceInfoView,
    method: Method,
    path: Seq<char>,
    body: Seq<u8>,
) -> ActionView {
    action_of_route(info, route_of(method, path), body)
}

/// Says what a routed request calls for.
pub fn dispatch(info: &ServiceInfo, route: Route, body: Vec<u8>) -> (action: Action)
    ensures
        action@ == action_of_route(info@, route@, body@),
{
    match route {
        Route::Index => Action::Reply(req_index(info)),
        Route::Fetch(key) => Action::Fetch { key },
        Route::Store(key) => Action::Store { key, value: body, expiry: NO_EXPIRY },
        Route::Remove(key) => Action::Remove { key },
        Route::NotFound => Action::Reply(p404()),
        Route::MethodNotAllowed => Action::Reply(method_not_allowed()),
    }
}

/// Says what a request calls for, from its method, its path and its body.
pub fn begin(info: &ServiceInfo, method: Method, path: &str, body: Vec<u8>) -> (action: Action)
    ensures
        action@ == action_of(info@, method, path@, body@),
{
    dispatch(info, route(method, path), body)
}

} // verus!
