use vstd::prelude::*;
use crate::headers::{echo_map, flatten_headers, lemma_echo_map_entries, lists_map, unique_names, value_text, Header};
use crate::page::{index_handler, INDEX_PAGE};
use crate::routing::{check_method, classify, route_of, Method, Route};

verus! {

/// What the server answers to one request.
#[derive(Debug)]
pub enum Reply {
    /// Status 200, HTML: the diagnostic page.
    Page(&'static str),
    /// Status 200, JSON: one member per header name.
    Echo(Vec<(String, String)>),
    /// Status 404, with no body.
    NotFound,
}

impl Reply {
    /// 404 for "not found", 200 for the rest.
    pub open spec fn status_spec(&self) -> u16 {
        match self {
            Reply::NotFound => 404,
            _ => 200,
        }
    }

    /// HTML for the page, JSON for the echo, none for "not found".
    pub open spec fn content_type_spec(&self) -> Option<Seq<char>> {
        match self {
            Reply::Page(_) => Some("text/html"@),
            Reply::Echo(_) => Some("application/json"@),
            Reply::NotFound => None,
        }
    }

    /// The HTTP status code of the reply.
    pub fn status(&self) -> (code: u16)
        ensures
            code == self.status_spec(),
    {
        match self {
            Reply::NotFound => 404,
            _ => 200,
        }
    }

    /// The media type of the body, if the reply has one.
    pub fn content_type(&self) -> (t: Option<&'static str>)
        ensures
            t is Some == self.content_type_spec() is Some,
            t matches Some(s) ==> self.content_type_spec() == Some(s@),
    {
        match self {
            Reply::Page(_) => Some("text/html"),
            Reply::Echo(_) => Some("application/json"),
            Reply::NotFound => None,
        }
    }
}

/// The reply owed to a request with this path, method and headers.
pub open spec fn reply_for(path: Seq<char>, method: Method, hs: Seq<Header>, r: Reply) -> bool {
    match route_of(path, method) {
        Route::Index => r matches Reply::Page(p) && p@ == INDEX_PAGE@,
        Route::Ping => r matches Reply::Echo(v) && lists_map(v@, echo_map(hs)),
        _ => r is NotFound,
    }
}

/// The catch-all reply: 404 with an empty body.
pub fn handler_404() -> (r: Reply)
    ensures
        r is NotFound,
{
    Reply::NotFound
}

/// Echoes the request's headers; checks on its own that the method is `GET`
/// and answers "not found" otherwise.
pub fn ping_handler(method: Method, headers: &Vec<Header>) -> (r: Reply)
    ensures
        method == Method::Get ==> (r matches Reply::Echo(v) && lists_map(v@, echo_map(headers@))),
        method != Method::Get ==> r is NotFound,
{
    if method != Method::Get {
        return handler_404();
    }
    Reply::Echo(flatten_headers(headers))
}

/// Answers one request: the method guard first, then the route table.
pub fn respond(path: &String, method: Method, headers: &Vec<Header>) -> (r: Reply)
    ensures
        reply_for(path@, method, headers@, r),
{
    if check_method(path, method) {
        return handler_404();
    }
    match classify(path, method) {
        Route::Index => Reply::Page(index_handler()),
        Route::Ping => ping_handler(method, headers),
        _ => handler_404(),
    }
}

/// The name/value pairs that a listing holds, as text.
pub open spec fn pair_set(v: Seq<(String, String)>) -> Set<(Seq<char>, Seq<char>)> {
    Set::new(|p: (Seq<char>, Seq<char>)| exists|i: int| 0 <= i < v.len() && (#[trigger] v[i]).0@ == p.0 && v[i].1@ == p.1)
}

/// The body of a reply, in a form where two bodies that serialise to the same
/// document are equal.
pub open spec fn body_view(r: Reply) -> Option<Set<(Seq<char>, Seq<char>)>> {
    match r {
        Reply::Echo(v) => Some(pair_set(v@)),
        _ => None,
    }
}

/// `GET /` is answered 200, as HTML, with the diagnostic page exactly.
pub proof fn lemma_root_serves_page(path: Seq<char>, hs: Seq<Header>, r: Reply)
    requires
        path == "/"@,
        reply_for(path, Method::Get, hs, r),
    ensures
        r.status_spec() == 200,
        r.content_type_spec() == Some("text/html"@),
        r matches Reply::Page(p) && p@ == INDEX_PAGE@,
{
}

/// `GET /ping` is answered 200, as JSON, with an object that has one key for
/// each header name on the request and no other, each key once, valued with
/// the text of the last header of that name.
pub proof fn lemma_ping_echoes_headers(path: Seq<char>, hs: Seq<Header>, r: Reply)
    requires
        path == "/ping"@,
        reply_for(path, Method::Get, hs, r),
    ensures
        r.status_spec() == 200,
        r.content_type_spec() == Some("application/json"@),
        r matches Reply::Echo(v) && {
            &&& unique_names(v@)
            &&& forall|i: int|
                0 <= i < hs.len() ==> exists|j: int| 0 <= j < v@.len() && (#[trigger] v@[j]).0@ == (#[trigger] hs[i]).name@
            &&& forall|j: int|
                0 <= j < v@.len() ==> exists|i: int| 0 <= i < hs.len() && (#[trigger] hs[i]).name@ == (#[trigger] v@[j]).0@
            &&& forall|i: int, j: int|
                0 <= i < hs.len() && 0 <= j < v@.len() && (#[trigger] v@[j]).0@ == (#[trigger] hs[i]).name@
                    && (forall|k: int| i < k < hs.len() ==> (#[trigger] hs[k]).name@ != hs[i].name@)
                    ==> v@[j].1@ == value_text(hs[i].value@)
        },
{
    assert("/ping"@ != "/"@) by {
        reveal_strlit("/ping");
        reveal_strlit("/");
        assert("/ping"@.len() != "/"@.len());
    }
    lemma_echo_map_entries(hs);
    let m = echo_map(hs);
    if let Reply::Echo(v) = r {
        assert forall|i: int| 0 <= i < hs.len() implies exists|j: int|
            0 <= j < v@.len() && (#[trigger] v@[j]).0@ == (#[trigger] hs[i]).name@ by {
            assert(m.contains_key(hs[i].name@));
        }
        assert forall|j: int| 0 <= j < v@.len() implies exists|i: int|
            0 <= i < hs.len() && (#[trigger] hs[i]).name@ == (#[trigger] v@[j]).0@ by {
            assert(m.contains_key(v@[j].0@));
        }
        assert forall|i: int, j: int|
            0 <= i < hs.len() && 0 <= j < v@.len() && (#[trigger] v@[j]).0@ == (#[trigger] hs[i]).name@
                && (forall|k: int| i < k < hs.len() ==> (#[trigger] hs[k]).name@ != hs[i].name@)
                implies v@[j].1@ == value_text(hs[i].value@) by {
            assert(m[hs[i].name@] == value_text(hs[i].value@));
        }
    }
}

/// `/ping` with any method other than `GET` is answered 404 with no body.
pub proof fn lemma_ping_other_method(path: Seq<char>, method: Method, hs: Seq<Header>, r: Reply)
    requires
        path == "/ping"@,
        method != Method::Get,
        reply_for(path, method, hs, r),
    ensures
        r.status_spec() == 404,
        r is NotFound,
{
}

/// Any path other than `/` and `/ping` is answered 404 with no body, whatever
/// the method.
pub proof fn lemma_unknown_path(path: Seq<char>, method: Method, hs: Seq<Header>, r: Reply)
    requires
        path != "/"@,
        path != "/ping"@,
        reply_for(path, method, hs, r),
    ensures
        r.status_spec() == 404,
        r is NotFound,
{
}

/// Two answers to the same request agree in status, media type and body: the
/// reply does not depend on anything but the request.
pub proof fn lemma_same_request_same_reply(path: Seq<char>, method: Method, hs: Seq<Header>, r1: Reply, r2: Reply)
    requires
        reply_for(path, method, hs, r1),
        reply_for(path, method, hs, r2),
    ensures
        r1.status_spec() == r2.status_spec(),
        r1.content_type_spec() == r2.content_type_spec(),
        body_view(r1) == body_view(r2),
        r1 matches Reply::Page(p1) ==> (r2 matches Reply::Page(p2) && p1@ == p2@),
{
    if let Reply::Echo(v1) = r1 {
        if let Reply::Echo(v2) = r2 {
            let m = echo_map(hs);
            assert forall|p: (Seq<char>, Seq<char>)| pair_set(v1@).contains(p) implies pair_set(v2@).contains(p) by {
                let i = choose|i: int| 0 <= i < v1@.len() && (#[trigger] v1@[i]).0@ == p.0 && v1@[i].1@ == p.1;
                assert(m.contains_key(p.0));
                let j = choose|j: int| 0 <= j < v2@.len() && (#[trigger] v2@[j]).0@ == p.0;
                assert(v2@[j].1@ == p.1);
            }
            assert forall|p: (Seq<char>, Seq<char>)| pair_set(v2@).contains(p) implies pair_set(v1@).contains(p) by {
                let i = choose|i: int| 0 <= i < v2@.len() && (#[trigger] v2@[i]).0@ == p.0 && v2@[i].1@ == p.1;
                assert(m.contains_key(p.0));
                let j = choose|j: int| 0 <= j < v1@.len() && (#[trigger] v1@[j]).0@ == p.0;
                assert(v1@[j].1@ == p.1);
            }
            assert(pair_set(v1@) =~= pair_set(v2@));
        }
    }
}

} // verus!
