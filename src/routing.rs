use vstd::prelude::*;

verus! {

/// The request methods that the router tells apart.
#[derive(Clone, Copy, Debug, PartialEq, Eq, Structural)]
pub enum Method {
    Get,
    Post,
    Put,
    Delete,
    Patch,
    Head,
    Options,
    Connect,
    Trace,
    /// Any extension method.
    Extension,
}

/// Which handler a request is dispatched to.
#[derive(Clone, Copy, Debug, PartialEq, Eq, Structural)]
pub enum Route {
    /// `GET /`: the diagnostic page.
    Index,
    /// `GET /ping`: the header echo.
    Ping,
    /// `/ping` with any method but `GET`.
    PingWrongMethod,
    /// Everything else.
    NotFound,
}

/// The route a request takes, by path and method, in order of precedence.
pub open spec fn route_of(path: Seq<char>, method: Method) -> Route {
    if path == "/"@ && method == Method::Get {
        Route::Index
    } else if path == "/ping"@ && method == Method::Get {
        Route::Ping
    } else if path == "/ping"@ {
        Route::PingWrongMethod
    } else {
        Route::NotFound
    }
}

/// Whether `path` is exactly the text `lit`.
fn path_is(path: &String, lit: &str) -> (r: bool)
    ensures
        r == (path@ == lit@),
{
    *path == lit.to_owned()
}

/// Classifies a request by path and method.
pub fn classify(path: &String, method: Method) -> (r: Route)
    ensures
        r == route_of(path@, method),
{
    let root = path_is(path, "/");
    let ping = path_is(path, "/ping");
    if root && method == Method::Get {
        Route::Index
    } else if ping && method == Method::Get {
        Route::Ping
    } else if ping {
        Route::PingWrongMethod
    } else {
        Route::NotFound
    }
}

/// The guard that runs before any route: true when the request must be
/// answered "not found" at once, which is `/ping` with a method other than
/// `GET`.
pub fn check_method(path: &String, method: Method) -> (blocked: bool)
    ensures
        blocked == (path@ == "/ping"@ && method != Method::Get),
        blocked == (route_of(path@, method) == Route::PingWrongMethod),
{
    path_is(path, "/ping") && method != Method::Get
}

} // verus!
