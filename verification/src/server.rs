//! Request routing: which handler answers a request, from its path and method.

use vstd::prelude::*;

verus! {

/// `pavex_matchit::Router`, the URL router, carried opaquely.
#[verifier::external_type_specification]
#[verifier::external_body]
#[verifier::reject_recursive_types(T)]
pub struct ExRouter<T>(pavex_matchit::Router<T>);

/// The static routes that a router holds, each with its value.
pub uninterp spec fn route_table(r: pavex_matchit::Router<u32>) -> Map<Seq<char>, u32>;

/// The catch-all routes that a router holds, by the prefix before their `*`:
/// the name of their parameter and their value.
pub uninterp spec fn catch_all_table(r: pavex_matchit::Router<u32>) -> Map<Seq<char>, (Seq<char>, u32)>;

/// A static route: a path that starts with `/` and holds no parameter
/// (`:`) nor catch-all (`*`) segment.
pub open spec fn is_static_route(route: Seq<char>) -> bool {
    &&& route.len() > 0
    &&& route[0] == '/'
    &&& forall|i: int| 0 <= i < route.len() ==> #[trigger] route[i] != ':' && route[i] != '*'
}

/// The name of a route parameter: not empty, with no `/`, `:` or `*`.
pub open spec fn is_param_name(name: Seq<char>) -> bool {
    &&& name.len() > 0
    &&& forall|i: int| 0 <= i < name.len() ==> #[trigger] name[i] != '/' && name[i] != ':' && name[i] != '*'
}

/// `path` is `prefix` followed by at least one more character.
pub open spec fn strictly_extends(path: Seq<char>, prefix: Seq<char>) -> bool {
    &&& path.len() > prefix.len()
    &&& path.take(prefix.len() as int) == prefix
}

/// Every route of the table is static.
pub open spec fn all_static(table: Map<Seq<char>, u32>) -> bool {
    forall|route: Seq<char>| #[trigger] table.contains_key(route) ==> is_static_route(route)
}

/// The routes are static routes, and catch-alls `<prefix>*<name>` whose
/// prefix ends with `/` and is itself a static route that no other static
/// route extends.
pub open spec fn routes_well_formed(
    statics: Map<Seq<char>, u32>,
    catch_alls: Map<Seq<char>, (Seq<char>, u32)>,
) -> bool {
    &&& all_static(statics)
    &&& forall|prefix: Seq<char>| #[trigger]
        catch_alls.contains_key(prefix) ==> {
            &&& statics.contains_key(prefix)
            &&& prefix.last() == '/'
            &&& is_param_name(catch_alls[prefix].0)
            &&& forall|k: Seq<char>| #[trigger] statics.contains_key(k) ==> !strictly_extends(k, prefix)
        }
}

/// Calls `pavex_matchit::Router::new`, which makes a router with no route.
#[verifier::external_body]
fn router_new() -> (r: pavex_matchit::Router<u32>)
    ensures
        route_table(r).is_empty(),
        catch_all_table(r).is_empty(),
{
    pavex_matchit::Router::new()
}

/// Calls `pavex_matchit::Router::insert` with a static route. Into a router
/// of static routes, a static route that it does not hold yet is inserted
/// without error: only parameters, catch-alls and an already present route
/// make `insert` fail.
#[verifier::external_body]
fn router_insert(router: &mut pavex_matchit::Router<u32>, route: &str, value: u32) -> (r: Result<(), String>)
    requires
        all_static(route_table(*old(router))),
        catch_all_table(*old(router)).is_empty(),
        is_static_route(route@),
        !route_table(*old(router)).contains_key(route@),
    ensures
        r is Ok,
        route_table(*final(router)) == route_table(*old(router)).insert(route@, value),
        catch_all_table(*final(router)) == catch_all_table(*old(router)),
{
    match router.insert(route, value) {
        Ok(()) => Ok(()),
        Err(e) => Err(e.to_string()),
    }
}

/// Calls `pavex_matchit::Router::insert` with the catch-all route
/// `<prefix>*<name>`. When the prefix is a static route of the router that
/// ends with `/`, that no other route extends and that has no catch-all yet,
/// the catch-all becomes the only child of the prefix's node and is inserted
/// without error (`insert_child`, catch-all case).
#[verifier::external_body]
fn router_insert_catch_all(
    router: &mut pavex_matchit::Router<u32>,
    prefix: &str,
    name: &str,
    value: u32,
) -> (r: Result<(), String>)
    requires
        routes_well_formed(route_table(*old(router)), catch_all_table(*old(router))),
        route_table(*old(router)).contains_key(prefix@),
        prefix@.last() == '/',
        is_param_name(name@),
        forall|k: Seq<char>| #[trigger] route_table(*old(router)).contains_key(k) ==> !strictly_extends(k, prefix@),
        !catch_all_table(*old(router)).contains_key(prefix@),
    ensures
        r is Ok,
        route_table(*final(router)) == route_table(*old(router)),
        catch_all_table(*final(router)) == catch_all_table(*old(router)).insert(prefix@, (name@, value)),
{
    match router.insert(format!("{}*{}", prefix, name), value) {
        Ok(()) => Ok(()),
        Err(e) => Err(e.to_string()),
    }
}

/// `r` is a match of the static route with id `id`.
pub open spec fn matches_static(r: Option<RouteMatch>, id: u32) -> bool {
    r matches Some(m) && m.id == id && m.param is None
}

/// `r` is a match of the catch-all route with id `id`, its parameter `rest`.
pub open spec fn matches_catch_all(r: Option<RouteMatch>, id: u32, rest: Seq<char>) -> bool {
    r matches Some(m) && m.id == id && (m.param matches Some(p) && p@ == rest)
}

/// `path` is no static route and extends no catch-all's prefix.
pub open spec fn matches_nothing(
    statics: Map<Seq<char>, u32>,
    catch_alls: Map<Seq<char>, (Seq<char>, u32)>,
    path: Seq<char>,
) -> bool {
    &&& !statics.contains_key(path)
    &&& forall|prefix: Seq<char>| #[trigger] catch_alls.contains_key(prefix) ==> !strictly_extends(path, prefix)
}

/// What a path matched: the route's id and, for a route with a parameter,
/// the parameter's value.
pub struct RouteMatch {
    pub id: u32,
    pub param: Option<String>,
}

/// Calls `pavex_matchit::Router::at`, and gives the matched value and the
/// value of the matched route's parameter, if it has one. In a router of
/// well-formed routes, a path equal to a static route matches that route,
/// with no parameter; a path that extends the prefix of a catch-all by at
/// least one character matches the catch-all, whose parameter is the rest of
/// the path; any other path is an error (not found, or a trailing slash too
/// many or too few).
#[verifier::external_body]
fn router_at(router: &pavex_matchit::Router<u32>, path: &str) -> (r: Option<RouteMatch>)
    requires
        routes_well_formed(route_table(*router), catch_all_table(*router)),
    ensures
        route_table(*router).contains_key(path@) ==> matches_static(r, route_table(*router)[path@]),
        forall|prefix: Seq<char>|
            #[trigger] catch_all_table(*router).contains_key(prefix) && strictly_extends(path@, prefix)
                ==> matches_catch_all(r, catch_all_table(*router)[prefix].1, path@.skip(prefix.len() as int)),
        r is None <==> matches_nothing(route_table(*router), catch_all_table(*router), path@),
{
    match router.at(path) {
        Ok(matched) => Some(RouteMatch {
            id: *matched.value,
            param: matched.params.iter().next().map(|(_, v)| v.to_string()),
        }),
        Err(_) => None,
    }
}

/// An HTTP method.
pub enum HttpMethod {
    Get,
    Post,
    Put,
    Delete,
    Patch,
    Head,
    Options,
    Connect,
    Trace,
    /// Any other method, by its name.
    Extension(String),
}

/// Who answers a request.
pub enum Route {
    /// `GET /`
    Root,
    /// `POST /api/ingest`
    Ingest,
    /// `GET /api/ping`
    Ping,
    /// `GET /openapi.json`
    OpenApi,
    /// `/swagger`, any method
    SwaggerRedirect,
    /// `/swagger/`, any method
    SwaggerRoot,
    /// `/swagger/<path>`, any method, with the path after `/swagger/`
    SwaggerFile(String),
    /// The fallback, told the methods that the path allows: none when no route
    /// matches the path (not found), else those of its route (method not allowed).
    Fallback(Vec<HttpMethod>),
}

/// The prefix of the Swagger UI's files.
pub open spec fn swagger_prefix() -> Seq<char> {
    "/swagger/"@
}

/// The id of each static route in the router.
pub open spec fn spec_route_table() -> Map<Seq<char>, u32> {
    map![
        "/"@ => 0u32,
        "/api/ingest"@ => 1u32,
        "/api/ping"@ => 2u32,
        "/openapi.json"@ => 3u32,
        "/swagger"@ => 4u32,
        "/swagger/"@ => 5u32,
    ]
}

/// The catch-all routes of the router: `/swagger/*path`, id 6.
pub open spec fn spec_catch_all_table() -> Map<Seq<char>, (Seq<char>, u32)> {
    map![swagger_prefix() => ("path"@, 6u32)]
}

/// The application's routes are well formed: no static route extends
/// `/swagger/`, which is itself a static route.
proof fn lemma_app_routes_well_formed()
    ensures
        routes_well_formed(spec_route_table(), spec_catch_all_table()),
        "/"@.len() == 1,
        "/api/ingest"@.len() == 11,
        "/api/ping"@.len() == 9,
        "/openapi.json"@.len() == 13,
        "/swagger"@.len() == 8,
        swagger_prefix().len() == 9,
        "/api/ping"@ != swagger_prefix(),
{
    reveal_strlit("/");
    reveal_strlit("/api/ingest");
    reveal_strlit("/api/ping");
    reveal_strlit("/openapi.json");
    reveal_strlit("/swagger");
    reveal_strlit("/swagger/");
    reveal_strlit("path");
    assert("/api/ping"@[1] != swagger_prefix()[1]);
    assert("/api/ingest"@.take(9)[1] != swagger_prefix()[1]);
    assert("/openapi.json"@.take(9)[1] != swagger_prefix()[1]);
    assert(all_static(spec_route_table()));
    assert(is_param_name("path"@));
}

/// A router that holds exactly the application's routes.
pub struct ServerRouter {
    router: pavex_matchit::Router<u32>,
}

impl ServerRouter {
    /// The static routes that the router holds, each with its id.
    pub closed spec fn routes(&self) -> Map<Seq<char>, u32> {
        route_table(self.router)
    }

    /// The catch-all routes that the router holds, by prefix.
    pub closed spec fn catch_alls(&self) -> Map<Seq<char>, (Seq<char>, u32)> {
        catch_all_table(self.router)
    }

    #[verifier::type_invariant]
    spec fn holds_app_routes(self) -> bool {
        &&& route_table(self.router) == spec_route_table()
        &&& catch_all_table(self.router) == spec_catch_all_table()
    }
}

/// Builds the router of the application's routes: `/` (id 0),
/// `/api/ingest` (1), `/api/ping` (2), `/openapi.json` (3), `/swagger` (4),
/// `/swagger/` (5) and `/swagger/*path` (6), and no other.
pub fn build_router() -> (r: ServerRouter)
    ensures
        r.routes() == spec_route_table(),
        r.catch_alls() == spec_catch_all_table(),
{
    proof {
        lemma_app_routes_well_formed();
        reveal_strlit("/");
        reveal_strlit("/api/ingest");
        reveal_strlit("/api/ping");
            reveal_strlit("/openapi.json");
        reveal_strlit("/swagger");
        reveal_strlit("/swagger/");
        reveal_strlit("path");
    }
    let mut router = router_new();
    router_insert(&mut router, "/", 0);
    router_insert(&mut router, "/api/ingest", 1);
    router_insert(&mut router, "/api/ping", 2);
    router_insert(&mut router, "/openapi.json", 3);
    router_insert(&mut router, "/swagger", 4);
    router_insert(&mut router, "/swagger/", 5);
    assert(route_table(router) =~= spec_route_table());
    assert(spec_catch_all_table().contains_key(swagger_prefix()));
    assert(forall|k: Seq<char>| #[trigger] route_table(router).contains_key(k) ==> !strictly_extends(k, swagger_prefix()));
    router_insert_catch_all(&mut router, "/swagger/", "path", 6);
    assert(catch_all_table(router) =~= spec_catch_all_table());
    ServerRouter { router }
}

/// The route answers with `answer` a request with `method` to a path whose
/// route accepts only `allowed`: `answer` for that method, else the fallback
/// told `[allowed]`.
pub open spec fn dispatches(r: Route, method: HttpMethod, allowed: HttpMethod, answer: Route) -> bool {
    if method == allowed {
        r == answer
    } else {
        r matches Route::Fallback(methods) && methods@ == seq![allowed]
    }
}

/// Decides who answers a request for `path` with `method`: `GET /`,
/// `POST /api/ingest`, `GET /api/ping` and `GET /openapi.json`
/// go to their handlers, another method on one of these paths to the
/// fallback with the method the path allows; `/swagger`, `/swagger/` and
/// `/swagger/<path>` go to the Swagger UI whatever the method; any other path
/// goes to the fallback with no method.
pub fn route_request(router: &ServerRouter, path: &str, method: &HttpMethod) -> (r: Route)
    ensures
        path@ == "/"@ ==> dispatches(r, *method, HttpMethod::Get, Route::Root),
        path@ == "/api/ingest"@ ==> dispatches(r, *method, HttpMethod::Post, Route::Ingest),
        path@ == "/api/ping"@ ==> dispatches(r, *method, HttpMethod::Get, Route::Ping),
        path@ == "/openapi.json"@ ==> dispatches(r, *method, HttpMethod::Get, Route::OpenApi),
        path@ == "/swagger"@ ==> r == Route::SwaggerRedirect,
        path@ == "/swagger/"@ ==> r == Route::SwaggerRoot,
        strictly_extends(path@, swagger_prefix()) ==> (r matches Route::SwaggerFile(file) && file@
            == path@.skip(swagger_prefix().len() as int)),
        !spec_route_table().contains_key(path@) && !strictly_extends(path@, swagger_prefix()) ==> (r matches Route::Fallback(
            methods,
        ) && methods@.len() == 0),
        ({
            &&& path@ != "/"@
            &&& path@ != "/api/ingest"@
            &&& path@ != "/api/ping"@
            &&& path@ != "/openapi.json"@
            &&& path@ != "/swagger"@
            &&& path@ != "/swagger/"@
            &&& !(path@.len() > 9 && path@.take(9) == "/swagger/"@)
        }) ==> (r matches Route::Fallback(methods) && methods@.len() == 0),
        path@.len() > 9 && path@.take(9) == "/swagger/"@ ==> (r matches Route::SwaggerFile(file) && file@
            == path@.skip(9)),
{
    proof {
        use_type_invariant(router);
        lemma_app_routes_well_formed();
        reveal_strlit("/");
        reveal_strlit("/api/ingest");
        reveal_strlit("/api/ping");
            reveal_strlit("/openapi.json");
        reveal_strlit("/swagger");
        reveal_strlit("/swagger/");
        assert(catch_all_table(router.router).contains_key(swagger_prefix()));
    }
    let RouteMatch { id: route_id, param } = match router_at(&router.router, path) {
        Some(matched) => matched,
        None => {
            return Route::Fallback(Vec::new());
        },
    };
    if route_id == 0 {
        dispatch(method, true, Route::Root)
    } else if route_id == 1 {
        dispatch(method, false, Route::Ingest)
    } else if route_id == 2 {
        dispatch(method, true, Route::Ping)
    } else if route_id == 3 {
        dispatch(method, true, Route::OpenApi)
    } else if route_id == 4 {
        Route::SwaggerRedirect
    } else if route_id == 5 {
        Route::SwaggerRoot
    } else {
        match param {
            Some(file) => Route::SwaggerFile(file),
            None => Route::Fallback(Vec::new()),
        }
    }
}

/// `answer` if `method` is the one that the route allows (`GET` when
/// `allows_get`, else `POST`), else the fallback told that method.
fn dispatch(method: &HttpMethod, allows_get: bool, answer: Route) -> (r: Route)
    ensures
        dispatches(r, *method, if allows_get { HttpMethod::Get } else { HttpMethod::Post }, answer),
{
    let matches_method = match method {
        HttpMethod::Get => allows_get,
        HttpMethod::Post => !allows_get,
        _ => false,
    };
    if matches_method {
        answer
    } else if allows_get {
        let allowed = vec![HttpMethod::Get];
        assert(allowed@ == seq![HttpMethod::Get]);
        Route::Fallback(allowed)
    } else {
        let allowed = vec![HttpMethod::Post];
        assert(allowed@ == seq![HttpMethod::Post]);
        Route::Fallback(allowed)
    }
}

} // verus!
