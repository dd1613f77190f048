use attic::binary_cache;
use attic::router::{get_router, Endpoint, Method, Permission, Route};
use attic::upload;
use axum::routing::{get, put, MethodRouter};
use axum::Router;

fn method_router(route: &Route) -> MethodRouter {
    match route.method {
        Method::Get => get(|| async {}),
        Method::Put => put(|| async {}),
    }
}

fn build(routes: &[Route]) -> Router {
    let mut router = Router::new();
    for route in routes {
        router = router.route(&route.path, method_router(route));
    }
    router
}

/// Axum panics on conflicting routes when it builds the router, and without
/// this test that panic would only show up at server startup.
#[test]
fn router_builds() {
    let _ = Router::<()>::new()
        .route("/", get(|| async {}))
        .merge(build(&binary_cache::get_router()))
        .merge(build(&upload::get_router()));
}

#[test]
fn whole_route_table_builds_into_one_router() {
    let _ = build(&get_router());
}

#[test]
fn route_table_lists_every_endpoint() {
    let routes = get_router();
    let table: Vec<(Method, &str, Endpoint)> =
        routes.iter().map(|r| (r.method, r.path.as_str(), r.endpoint)).collect();
    assert_eq!(
        table,
        vec![
            (Method::Get, "/", Endpoint::Placeholder),
            (Method::Get, "/{cache}/nix-cache-info", Endpoint::NixCacheInfo),
            (Method::Get, "/{cache}/{path}", Endpoint::StorePathInfo),
            (Method::Get, "/{cache}/nar/{path}", Endpoint::Nar),
            (Method::Get, "/{cache}/build-trace-v2/{drv_path}/{output}", Endpoint::GetBuildTrace),
            (Method::Put, "/{cache}/build-trace-v2/{drv_path}/{output}", Endpoint::PutBuildTrace),
        ]
    );
}

#[test]
fn build_trace_route_uses_prefix() {
    assert_eq!(
        binary_cache::build_trace_route(),
        format!("/{{cache}}/{}/{{drv_path}}/{{output}}", attic::build_trace::BUILD_TRACE_PREFIX)
    );
}

#[test]
fn reads_require_pull_and_writes_require_push() {
    for route in get_router() {
        let expected = match (route.method, route.endpoint) {
            (_, Endpoint::Placeholder) => None,
            (Method::Get, _) => Some(Permission::Pull),
            (Method::Put, _) => Some(Permission::Push),
        };
        assert_eq!(route.endpoint.required_permission(), expected, "{}", route.path);
    }
    assert_eq!(Endpoint::PutBuildTrace.required_permission(), Some(Permission::Push));
    assert_eq!(Endpoint::GetBuildTrace.required_permission(), Some(Permission::Pull));
}
