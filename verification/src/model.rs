//! The gateway in front of a cache that keeps what it is given.
//!
//! The cache is described as a map from the keys that are present to their
//! values, and an exchange as one request that is answered against it. The
//! laws at the end follow requests through the routing, the cache and the
//! replies.

use crate::backend::{FetchOutcomeView, RemoveOutcome, StoreOutcome};
use crate::config::ServiceInfoView;
use crate::gateway::{action_of, ActionView};
use crate::handlers::{fetch_reply, remove_reply, store_reply};
use crate::response::{binary_reply, not_found_reply, success_reply, ResponseView};
use crate::key::is_key;
use crate::router::{cache_path, key_of_path, route_of, Method, RouteView};
use vstd::prelude::*;

verus! {

/// What fetching `key` gives: its value if it is present.
pub open spec fn fetched(cache: Map<Seq<char>, Seq<u8>>, key: Seq<char>) -> FetchOutcomeView {
    if cache.contains_key(key) {
        FetchOutcomeView::Found(cache[key])
    } else {
        FetchOutcomeView::Absent
    }
}

/// What removing `key` gives: it is removed if it is present.
pub open spec fn removed(cache: Map<Seq<char>, Seq<u8>>, key: Seq<char>) -> RemoveOutcome {
    if cache.contains_key(key) {
        RemoveOutcome::Removed
    } else {
        RemoveOutcome::Absent
    }
}

/// A request that has been answered: the cache as it is afterwards, and
/// the reply.
pub struct Exchange {
    pub cache: Map<Seq<char>, Seq<u8>>,
    pub reply: ResponseView,
}

/// Answers one request against `cache`.
pub open spec fn serve(
    info: ServiceInfoView,
    cache: Map<Seq<char>, Seq<u8>>,
    method: Method,
    path: Seq<char>,
    body: Seq<u8>,
) -> Exchange {
    match action_of(info, method, path, body) {
        ActionView::Reply(reply) => Exchange { cache, reply },
        ActionView::Fetch { key } => Exchange { cache, reply: fetch_reply(fetched(cache, key)) },
        ActionView::Store { key, value, expiry } => Exchange {
            cache: cache.insert(key, value),
            reply: store_reply(StoreOutcome::Stored),
        },
        ActionView::Remove { key } => Exchange {
            cache: cache.remove(key),
            reply: remove_reply(removed(cache, key)),
        },
    }
}

/// The path of a key names that key, and is not the path of the index.
pub proof fn lemma_cache_path_names_key(key: Seq<char>)
    requires
        is_key(key),
    ensures
        key_of_path(cache_path(key)) == Some(key),
        cache_path(key) != "/"@,
{
    reveal_strlit("/cache/");
    reveal_strlit("/");
    let prefix = "/cache/"@;
    let path = cache_path(key);
    assert(path.subrange(0, prefix.len() as int) == prefix);
    assert(path.skip(prefix.len() as int) == key);
}

/// A route to the cache carries a key, and the path is the path of that
/// key.
pub proof fn law_routed_key(method: Method, path: Seq<char>)
    ensures
        match route_of(method, path) {
            RouteView::Fetch(key) | RouteView::Store(key) | RouteView::Remove(key) => is_key(key)
                && path == cache_path(key),
            _ => true,
        },
{
    let prefix = "/cache/"@;
    if prefix.is_prefix_of(path) {
        assert(path == prefix + path.skip(prefix.len() as int));
    }
}

/// Round trip: a value that is stored under a key is what a fetch of that
/// key returns, byte for byte, and the store is answered with success.
pub proof fn law_round_trip(
    info: ServiceInfoView,
    cache: Map<Seq<char>, Seq<u8>>,
    key: Seq<char>,
    value: Seq<u8>,
    body: Seq<u8>,
)
    requires
        is_key(key),
    ensures
        ({
            let put = serve(info, cache, Method::Put, cache_path(key), value);
            let get = serve(info, put.cache, Method::Get, cache_path(key), body);
            &&& put.reply == success_reply()
            &&& get.reply == binary_reply(value)
        }),
{
    lemma_cache_path_names_key(key);
}

/// Deletion removes: once a remove of a key has been answered with
/// success, a fetch of that key is answered with not found.
pub proof fn law_delete_removes(
    info: ServiceInfoView,
    cache: Map<Seq<char>, Seq<u8>>,
    key: Seq<char>,
    body: Seq<u8>,
)
    requires
        is_key(key),
        serve(info, cache, Method::Delete, cache_path(key), body).reply == success_reply(),
    ensures
        ({
            let delete = serve(info, cache, Method::Delete, cache_path(key), body);
            serve(info, delete.cache, Method::Get, cache_path(key), body).reply
                == not_found_reply()
        }),
{
    lemma_cache_path_names_key(key);
}

/// Absent fetch: a fetch of a key that holds nothing is answered with
/// status 404 and the not-found error, and leaves the cache as it was.
pub proof fn law_absent_fetch(
    info: ServiceInfoView,
    cache: Map<Seq<char>, Seq<u8>>,
    key: Seq<char>,
    body: Seq<u8>,
)
    requires
        is_key(key),
        !cache.contains_key(key),
    ensures
        ({
            let get = serve(info, cache, Method::Get, cache_path(key), body);
            &&& get.reply == not_found_reply()
            &&& get.reply.status == 404
            &&& get.cache == cache
        }),
{
    lemma_cache_path_names_key(key);
}

/// Absent delete: a remove of a key that holds nothing is answered with
/// status 404 and the not-found error, not with success, and leaves the
/// cache as it was.
pub proof fn law_absent_delete(
    info: ServiceInfoView,
    cache: Map<Seq<char>, Seq<u8>>,
    key: Seq<char>,
    body: Seq<u8>,
)
    requires
        is_key(key),
        !cache.contains_key(key),
    ensures
        ({
            let delete = serve(info, cache, Method::Delete, cache_path(key), body);
            &&& delete.reply == not_found_reply()
            &&& delete.reply.status == 404
            &&& delete.reply != success_reply()
            &&& delete.cache == cache
        }),
{
    lemma_cache_path_names_key(key);
    assert(cache.remove(key) =~= cache);
}

/// Last write wins: after two stores under one key, both answered with
/// success, a fetch returns the value of the second. Storing one value
/// twice is the case `first == second`.
pub proof fn law_last_write_wins(
    info: ServiceInfoView,
    cache: Map<Seq<char>, Seq<u8>>,
    key: Seq<char>,
    first: Seq<u8>,
    second: Seq<u8>,
    body: Seq<u8>,
)
    requires
        is_key(key),
    ensures
        ({
            let one = serve(info, cache, Method::Put, cache_path(key), first);
            let two = serve(info, one.cache, Method::Put, cache_path(key), second);
            let get = serve(info, two.cache, Method::Get, cache_path(key), body);
            &&& one.reply == success_reply()
            &&& two.reply == success_reply()
            &&& get.reply == binary_reply(second)
        }),
{
    lemma_cache_path_names_key(key);
}

} // verus!
