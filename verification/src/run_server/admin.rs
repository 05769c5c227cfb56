//! The admin endpoint: routing its paths and reading the reload request.
use vstd::prelude::*;
use matchit::Router;
use crate::run_server::query::{query_decode, query_get, decode_spec, lookup_spec, params_view};
use crate::run_server::{create_response, Reply};

verus! {

#[verifier::external_type_specification]
#[verifier::external_body]
#[verifier::reject_recursive_types(T)]
pub struct ExRouter<T>(Router<T>);

/// The routes a router holds: each route's text and the value stored under it.
pub uninterp spec fn router_routes(r: Router<String>) -> Map<Seq<char>, Seq<char>>;

/// A route without parameters or catch-alls: it matches its own text only.
pub open spec fn is_static_route(route: Seq<char>) -> bool {
    forall|i: int| 0 <= i < route.len() ==> route[i] != ':' && route[i] != '*'
}

/// Every route of the map is static.
pub open spec fn all_static(routes: Map<Seq<char>, Seq<char>>) -> bool {
    forall|k: Seq<char>| routes.dom().contains(k) ==> is_static_route(k)
}

/// An empty router (`Router::new`).
#[verifier::external_body]
fn router_new() -> (router: Router<String>)
    ensures
        router_routes(router) =~= Map::empty(),
{
    Router::new()
}

/// Adds a static route (`Router::insert`), into a router of static routes
/// that all start with `/`. The route must start with `/` too: an empty route
/// is taken for an empty tree and overwritten by the next insert. The route is
/// added, and the call succeeds, exactly when the router does not hold it yet;
/// on failure the routes are unchanged.
#[verifier::external_body]
fn router_insert(r: &mut Router<String>, route: &str, value: String) -> (ok: bool)
    requires
        is_static_route(route@),
        route@.len() > 0,
        route@[0] == '/',
        all_static(router_routes(*old(r))),
        forall|k: Seq<char>| #[trigger]
            router_routes(*old(r)).dom().contains(k) ==> k.len() > 0 && k[0] == '/',
    ensures
        ok <==> !router_routes(*old(r)).dom().contains(route@),
        ok ==> router_routes(*final(r)) == router_routes(*old(r)).insert(route@, value@),
        !ok ==> router_routes(*final(r)) == router_routes(*old(r)),
{
    r.insert(route, value).is_ok()
}

/// The value of the route that `path` matches (`Router::at`). When every route
/// is static, a path matches exactly the route with its own text.
#[verifier::external_body]
fn router_at(r: &Router<String>, path: &str) -> (v: Option<String>)
    ensures
        all_static(router_routes(*r)) ==> (v is Some <==> router_routes(*r).dom().contains(path@)),
        all_static(router_routes(*r)) && v is Some ==> v->Some_0@ == router_routes(*r)[path@],
{
    match r.at(path) {
        Ok(m) => Some(m.value.clone()),
        Err(_) => None,
    }
}

/// What the admin endpoint does with a request.
#[derive(Debug, Clone, Copy, PartialEq, Eq, Structural)]
pub enum AdminAction {
    /// Reload the wasm file the query names.
    Reload,
    /// Greet.
    Hello,
    /// Answer 404.
    NotFound,
}

/// The admin endpoint's router: `/reload` leads to the reload.
pub struct AdminRouter {
    router: Router<String>,
}

impl AdminRouter {
    /// The routes hold `/reload`, with the value `reload`, and nothing else.
    #[verifier::type_invariant]
    spec fn inv(self) -> bool {
        router_routes(self.router) == Map::<Seq<char>, Seq<char>>::empty().insert(
            "/reload"@,
            "reload"@,
        )
    }

    /// The routes this router holds, each with its value.
    pub closed spec fn routes(&self) -> Map<Seq<char>, Seq<char>> {
        router_routes(self.router)
    }

    /// The router with its one route: `/reload`, with the value `reload`.
    pub fn new() -> (r: AdminRouter)
        ensures
            r.routes() == Map::<Seq<char>, Seq<char>>::empty().insert("/reload"@, "reload"@),
    {
        let mut router = router_new();
        proof {
            reveal_strlit("/reload");
        }
        let ok = router_insert(&mut router, "/reload", String::from_str("reload"));
        assert(ok);
        AdminRouter { router }
    }

    /// The action for a request path: the reload for `/reload`, 404 for every other path.
    pub fn route(&self, path: &str) -> (r: AdminAction)
        ensures
            r == (if path@ == "/reload"@ {
                AdminAction::Reload
            } else {
                AdminAction::NotFound
            }),
    {
        proof {
            use_type_invariant(self);
            reveal_strlit("/reload");
            reveal_strlit("reload");
        }
        match router_at(&self.router, path) {
            Some(v) => {
                if crate::text::str_equal(v.as_str(), "reload") {
                    AdminAction::Reload
                } else {
                    AdminAction::Hello
                }
            },
            None => AdminAction::NotFound,
        }
    }
}

/// The file a reload request names: the value of its first `file` parameter;
/// a request without one is answered 400.
pub fn reload_file(query: &str) -> (r: Result<String, Reply>)
    ensures
        lookup_spec(decode_spec(query@), "file"@) is Some ==> r is Ok && r->Ok_0@ == lookup_spec(
            decode_spec(query@),
            "file"@,
        )->Some_0,
        lookup_spec(decode_spec(query@), "file"@) is None ==> r is Err && r->Err_0.status == 400
            && r->Err_0.body@ == "file is required"@,
{
    let params = query_decode(query);
    match query_get(&params, "file") {
        Some(f) => Ok(String::from_str(f)),
        None => Err(create_response(400, String::from_str("file is required"))),
    }
}

/// The reply once a reload succeeded: 200 `ok`.
pub fn reload_ok_reply() -> (r: Reply)
    ensures
        r.status == 200,
        r.body@ == "ok"@,
{
    create_response(200, String::from_str("ok"))
}

/// The reply to a path the admin endpoint does not know: 404 `Not Found`.
pub fn not_found_reply() -> (r: Reply)
    ensures
        r.status == 404,
        r.body@ == "Not Found"@,
{
    create_response(404, String::from_str("Not Found"))
}

/// The admin endpoint's greeting: 200 `Hello Admin`.
pub fn hello_admin_reply() -> (r: Reply)
    ensures
        r.status == 200,
        r.body@ == "Hello Admin"@,
{
    create_response(200, String::from_str("Hello Admin"))
}

} // verus!
