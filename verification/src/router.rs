//! Routing: from the method and path of a request to the operation that
//! answers it.

use crate::key::{is_key, CacheKey};
use vstd::prelude::*;
use vstd::std_specs::iter::IteratorSpec;

verus! {

/// The method of a request, as far as routing tells methods apart.
#[derive(Clone, Copy, Debug, PartialEq, Eq, Structural)]
pub enum Method {
    Get,
    Put,
    Delete,
    /// Any other method.
    Other,
}

/// Where a request goes.
#[derive(Clone, Debug, PartialEq, Eq)]
pub enum Route {
    /// The description of the service.
    Index,
    /// Fetch the value of this key.
    Fetch(CacheKey),
    /// Store the body of the request under this key.
    Store(CacheKey),
    /// Remove this key.
    Remove(CacheKey),
    /// No such path.
    NotFound,
    /// No path accepts the method.
    MethodNotAllowed,
}

/// What a `Route` holds.
pub enum RouteView {
    Index,
    Fetch(Seq<char>),
    Store(Seq<char>),
    Remove(Seq<char>),
    NotFound,
    MethodNotAllowed,
}

impl View for Route {
    type V = RouteView;

    open spec fn view(&self) -> RouteView {
        match self {
            Route::Index => RouteView::Index,
            Route::Fetch(key) => RouteView::Fetch(key@),
            Route::Store(key) => RouteView::Store(key@),
            Route::Remove(key) => RouteView::Remove(key@),
            Route::NotFound => RouteView::NotFound,
            Route::MethodNotAllowed => RouteView::MethodNotAllowed,
        }
    }
}

/// The method that a name stands for. Names are case-sensitive.
pub open spec fn method_of_name(name: Seq<char>) -> Method {
    if name == "GET"@ {
        Method::Get
    } else if name == "PUT"@ {
        Method::Put
    } else if name == "DELETE"@ {
        Method::Delete
    } else {
        Method::Other
    }
}

/// The path under which a key is served.
pub open spec fn cache_path(key: Seq<char>) -> Seq<char> {
    "/cache/"@ + key
}

/// The key that a path names: what follows `/cache/`, if that is a key.
pub open spec fn key_of_path(path: Seq<char>) -> Option<Seq<char>> {
    let prefix = "/cache/"@;
    if prefix.is_prefix_of(path) && is_key(path.skip(prefix.len() as int)) {
        Some(path.skip(prefix.len() as int))
    } else {
        None
    }
}

/// Where a request with this method and path goes.
///
/// `GET /` is the index. A path that names a key is fetched by `GET`,
/// stored by `PUT` and removed by `DELETE`. Whatever is left is not found
/// if the method is `GET`, and otherwise meets a method that is not
/// allowed.
pub open spec fn route_of(method: Method, path: Seq<char>) -> RouteView {
    if method == Method::Get && path == "/"@ {
        RouteView::Index
    } else {
        match (key_of_path(path), method) {
            (Some(key), Method::Get) => RouteView::Fetch(key),
            (Some(key), Method::Put) => RouteView::Store(key),
            (Some(key), Method::Delete) => RouteView::Remove(key),
            (_, Method::Get) => RouteView::NotFound,
            _ => RouteView::MethodNotAllowed,
        }
    }
}

/// Whether two texts hold the same characters.
fn same_text(left: &str, right: &str) -> (same: bool)
    ensures
        same == (left@ == right@),
{
    let mut rest = right.chars();
    let mut same = true;
    for c in it: left.chars()
        invariant
            it.seq() == left@,
            rest.obeys_prophetic_iter_laws(),
            same ==> it.index() <= right@.len(),
            same ==> rest.remaining() == right@.skip(it.index() as int),
            same ==> left@.take(it.index() as int) == right@.take(it.index() as int),
            !same ==> left@ != right@,
    {
        if same {
            match rest.next() {
                Some(d) => {
                    if c != d {
                        same = false;
                    }
                },
                None => {
                    same = false;
                },
            }
        }
    }
    if same {
        let ghost shared = left@.len() as int;
        assert(left@.take(shared) == left@);
        match rest.next() {
            Some(_) => {
                assert(right@.skip(shared).len() > 0);
                false
            },
            None => {
                assert(right@.skip(shared).len() == 0);
                assert(right@.take(shared) == right@);
                true
            },
        }
    } else {
        false
    }
}

/// The key that `path` names, if it names one.
fn cache_key(path: &str) -> (key: Option<CacheKey>)
    ensures
        key is Some == key_of_path(path@) is Some,
        key matches Some(named) ==> key_of_path(path@) == Some(named@),
{
    proof {
        reveal_strlit("/cache/");
    }
    let total = path.unicode_len();
    if total < 7 {
        return None;
    }
    if !same_text(path.substring_char(0, 7), "/cache/") {
        return None;
    }
    CacheKey::new(path.substring_char(7, total).to_owned())
}

impl Method {
    /// The method that `name` stands for.
    pub fn from_name(name: &str) -> (method: Method)
        ensures
            method == method_of_name(name@),
    {
        if same_text(name, "GET") {
            Method::Get
        } else if same_text(name, "PUT") {
            Method::Put
        } else if same_text(name, "DELETE") {
            Method::Delete
        } else {
            Method::Other
        }
    }
}

/// Finds where a request with this method and path goes.
pub fn route(method: Method, path: &str) -> (found: Route)
    ensures
        found@ == route_of(method, path@),
{
    match method {
        Method::Get => {
            if same_text(path, "/") {
                Route::Index
            } else {
                match cache_key(path) {
                    Some(key) => Route::Fetch(key),
                    None => Route::NotFound,
                }
            }
        },
        Method::Put => match cache_key(path) {
            Some(key) => Route::Store(key),
            None => Route::MethodNotAllowed,
        },
        Method::Delete => match cache_key(path) {
            Some(key) => Route::Remove(key),
            None => Route::MethodNotAllowed,
        },
        Method::Other => Route::MethodNotAllowed,
    }
}

} // verus!
