//! The routing decision: one registered route, a `GET` of the root path,
//! answered with a fixed plain-text body; every other request gets the
//! router's default answer (405 at the root for a non-`GET` method, 404
//! elsewhere) with an empty body.

use vstd::prelude::*;

verus! {

/// The HTTP request methods the router distinguishes.
#[derive(Clone, Copy, PartialEq, Eq, Debug, Structural)]
pub enum Method {
    Get,
    Head,
    Post,
    Put,
    Delete,
    Connect,
    Options,
    Trace,
    Patch,
}

/// An HTTP response: a status code and a plain-text body.
pub struct Response {
    pub status: u16,
    pub body: String,
}

/// The fixed body served at the root route.
pub open spec fn hello_text() -> Seq<char> {
    "Hello from Rust REST API!"@
}

/// The root path, the only registered route.
pub open spec fn root_path() -> Seq<char> {
    "/"@
}

/// The status the router answers with: 200 for a `GET` of the root, 405 for
/// any other method at the root, 404 for any other path.
pub open spec fn spec_status(method: Method, path: Seq<char>) -> u16 {
    if path == root_path() {
        if method is Get {
            200u16
        } else {
            405u16
        }
    } else {
        404u16
    }
}

/// The body the router answers with: the fixed greeting for a `GET` of the
/// root, empty otherwise.
pub open spec fn spec_body(method: Method, path: Seq<char>) -> Seq<char> {
    if method is Get && path == root_path() {
        hello_text()
    } else {
        Seq::<char>::empty()
    }
}

/// The fixed response body of the root route.
pub fn hello_body() -> (body: String)
    ensures
        body@ == hello_text(),
{
    "Hello from Rust REST API!".to_owned()
}

/// Dispatch one request exactly as the routing table built at startup does.
pub fn route(method: Method, path: &str) -> (response: Response)
    ensures
        response.status == spec_status(method, path@),
        response.body@ == spec_body(method, path@),
{
    proof {
        reveal_strlit("/");
    }
    let at_root = path.unicode_len() == 1 && path.get_char(0) == '/';
    if at_root {
        proof {
            assert(path@ =~= root_path());
        }
        if method == Method::Get {
            Response { status: 200, body: hello_body() }
        } else {
            Response { status: 405, body: String::new() }
        }
    } else {
        Response { status: 404, body: String::new() }
    }
}

/// The response is a function of the request alone: equal method and path
/// always receive the same status and the same body, however often the
/// request is repeated.
pub proof fn lemma_route_deterministic(
    method: Method,
    path: Seq<char>,
    status1: u16,
    body1: Seq<char>,
    status2: u16,
    body2: Seq<char>,
)
    requires
        status1 == spec_status(method, path),
        body1 == spec_body(method, path),
        status2 == spec_status(method, path),
        body2 == spec_body(method, path),
    ensures
        status1 == status2,
        body1 == body2,
{
}

/// Only a `GET` of the root path is answered with the fixed greeting; every
/// other request gets an empty body and a non-200 status.
pub proof fn lemma_hello_only_at_root_get(method: Method, path: Seq<char>)
    ensures
        spec_body(method, path) == hello_text() <==> (method is Get && path == root_path()),
        (method is Get && path == root_path()) ==> spec_status(method, path) == 200,
        !(method is Get && path == root_path()) ==> spec_status(method, path) != 200
            && spec_body(method, path) == Seq::<char>::empty(),
{
    reveal_strlit("Hello from Rust REST API!");
    assert(hello_text().len() == 25);
}

} // verus!
