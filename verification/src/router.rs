//! The route table of the HTTP API.

use vstd::prelude::*;
use crate::binary_cache;
use crate::upload;

verus! {

/// An HTTP method a route answers.
#[derive(Debug, Clone, Copy, PartialEq, Eq, Structural)]
pub enum Method {
    Get,
    Put,
}

/// The handler a route leads to.
#[derive(Debug, Clone, Copy, PartialEq, Eq, Structural)]
pub enum Endpoint {
    /// The placeholder page at `/`.
    Placeholder,
    /// `nix-cache-info` of a cache.
    NixCacheInfo,
    /// `{storePathHash}.narinfo` of a cache.
    StorePathInfo,
    /// `nar/{storePathHash}.nar` of a cache.
    Nar,
    /// Reading a build trace entry.
    GetBuildTrace,
    /// Writing a build trace entry.
    PutBuildTrace,
}

/// A permission a request needs on the cache it names.
#[derive(Debug, Clone, Copy, PartialEq, Eq, Structural)]
pub enum Permission {
    /// Reading from the cache.
    Pull,
    /// Writing to the cache.
    Push,
}

/// The permission a handler requires on the cache a request names: reading
/// requires "pull", writing requires "push", and the placeholder page names
/// no cache.
pub open spec fn endpoint_permission(endpoint: Endpoint) -> Option<Permission> {
    match endpoint {
        Endpoint::Placeholder => None,
        Endpoint::PutBuildTrace => Some(Permission::Push),
        _ => Some(Permission::Pull),
    }
}

impl Endpoint {
    /// The permission this handler requires on the cache a request names.
    pub fn required_permission(&self) -> (p: Option<Permission>)
        ensures
            p == endpoint_permission(*self),
    {
        match self {
            Endpoint::Placeholder => None,
            Endpoint::PutBuildTrace => Some(Permission::Push),
            _ => Some(Permission::Pull),
        }
    }
}

/// One route: a method, a path template with `{name}` captures, and the
/// handler it leads to.
#[derive(Debug)]
pub struct Route {
    pub method: Method,
    pub path: String,
    pub endpoint: Endpoint,
}

/// The route a path template and a method lead to, as plain values.
pub open spec fn route_view(r: Route) -> (Method, Seq<char>, Endpoint) {
    (r.method, r.path@, r.endpoint)
}

/// No two routes of `routes` answer the same method on the same path
/// template. A router refuses two such routes when it is built; it has other
/// rules besides (on the shape of templates and the names of captures), which
/// this does not state.
pub open spec fn routes_do_not_conflict(routes: Seq<Route>) -> bool {
    forall|i: int, j: int|
        0 <= i < j < routes.len() ==> !(#[trigger] routes[i].method == #[trigger] routes[j].method
            && routes[i].path@ == routes[j].path@)
}

/// The route of the placeholder page.
pub open spec fn placeholder_route_path() -> Seq<char> {
    seq!['/']
}

/// The routes of the whole API: the placeholder page, then the binary cache
/// routes, then the routes of the v1 API.
pub fn get_router() -> (routes: Vec<Route>)
    ensures
        routes@.len() == 1 + binary_cache::binary_cache_routes().len()
            + upload::v1_routes().len(),
        route_view(routes@[0]) == (Method::Get, placeholder_route_path(), Endpoint::Placeholder),
        forall|i: int|
            0 <= i < binary_cache::binary_cache_routes().len() ==> route_view(#[trigger] routes@[1
                + i]) == binary_cache::binary_cache_routes()[i],
        forall|i: int|
            0 <= i < upload::v1_routes().len() ==> route_view(
                #[trigger] routes@[1 + binary_cache::binary_cache_routes().len() + i],
            ) == upload::v1_routes()[i],
{
    let mut routes: Vec<Route> = Vec::new();
    let slash = "/";
    proof {
        reveal_strlit("/");
    }
    routes.push(Route { method: Method::Get, path: slash.to_owned(), endpoint: Endpoint::Placeholder });
    let mut cache_routes = binary_cache::get_router();
    let mut v1 = upload::get_router();
    let ghost r0 = routes@;
    let ghost c = cache_routes@;
    let ghost v = v1@;
    routes.append(&mut cache_routes);
    routes.append(&mut v1);
    assert(routes@ =~= r0 + c + v);
    routes
}

/// Every route that reads a cache (`GET`) requires "pull", and every route
/// that writes one (`PUT`) requires "push".
pub proof fn lemma_reads_pull_writes_push()
    ensures
        forall|i: int|
            0 <= i < binary_cache::binary_cache_routes().len() ==> endpoint_permission(
                (#[trigger] binary_cache::binary_cache_routes()[i]).2,
            ) == Some(Permission::Pull) && binary_cache::binary_cache_routes()[i].0 == Method::Get,
        forall|i: int|
            0 <= i < upload::v1_routes().len() ==> endpoint_permission(
                (#[trigger] upload::v1_routes()[i]).2,
            ) == Some(Permission::Push) && upload::v1_routes()[i].0 == Method::Put,
{
    binary_cache::lemma_route_paths();
    upload::lemma_route_paths();
}

/// No two routes of the whole API answer the same method on the same path
/// template.
pub proof fn lemma_routes_do_not_conflict(routes: Seq<Route>)
    requires
        routes.len() == 1 + binary_cache::binary_cache_routes().len()
            + upload::v1_routes().len(),
        route_view(routes[0]) == (Method::Get, placeholder_route_path(), Endpoint::Placeholder),
        forall|i: int|
            0 <= i < binary_cache::binary_cache_routes().len() ==> route_view(#[trigger] routes[1
                + i]) == binary_cache::binary_cache_routes()[i],
        forall|i: int|
            0 <= i < upload::v1_routes().len() ==> route_view(
                #[trigger] routes[1 + binary_cache::binary_cache_routes().len() + i],
            ) == upload::v1_routes()[i],
    ensures
        routes_do_not_conflict(routes),
{
    binary_cache::lemma_route_paths();
    upload::lemma_route_paths();
    let nb = binary_cache::binary_cache_routes().len();
    assert forall|i: int, j: int|
        0 <= i < j < routes.len() implies !(#[trigger] routes[i].method
        == #[trigger] routes[j].method && routes[i].path@ == routes[j].path@) by {
        if i == 0 {
        } else if i < 1 + nb {
            assert(route_view(routes[1 + (i - 1)]) == binary_cache::binary_cache_routes()[i - 1]);
        } else {
            assert(route_view(routes[1 + nb + (i - 1 - nb)]) == upload::v1_routes()[i - 1 - nb]);
        }
        if j < 1 + nb {
            assert(route_view(routes[1 + (j - 1)]) == binary_cache::binary_cache_routes()[j - 1]);
        } else {
            assert(route_view(routes[1 + nb + (j - 1 - nb)]) == upload::v1_routes()[j - 1 - nb]);
        }
    }
}

} // verus!
