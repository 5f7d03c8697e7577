//! Request routing for the toy file server: the decision from the raw bytes
//! of an incoming request to a status line and a file to serve. Reading the
//! request off the connection and writing the response back are the caller's
//! side; every choice in between is made here.

use vstd::prelude::*;
use vstd::string::StringExecFns;

verus! {

/// The bytes of the request line `GET / HTTP/1.1` followed by a carriage
/// return and a line feed.
pub open spec fn root_request_line() -> Seq<u8> {
    seq![
        0x47u8,
        0x45u8,
        0x54u8,
        0x20u8,
        0x2Fu8,
        0x20u8,
        0x48u8,
        0x54u8,
        0x54u8,
        0x50u8,
        0x2Fu8,
        0x31u8,
        0x2Eu8,
        0x31u8,
        0x0Du8,
        0x0Au8,
    ]
}

/// The bytes of the request line `GET /sleep HTTP/1.1` followed by a
/// carriage return and a line feed.
pub open spec fn sleep_request_line() -> Seq<u8> {
    seq![
        0x47u8,
        0x45u8,
        0x54u8,
        0x20u8,
        0x2Fu8,
        0x73u8,
        0x6Cu8,
        0x65u8,
        0x65u8,
        0x70u8,
        0x20u8,
        0x48u8,
        0x54u8,
        0x54u8,
        0x50u8,
        0x2Fu8,
        0x31u8,
        0x2Eu8,
        0x31u8,
        0x0Du8,
        0x0Au8,
    ]
}

fn root_request_line_bytes() -> (v: Vec<u8>)
    ensures
        v@ == root_request_line(),
{
    let mut v: Vec<u8> = Vec::new();
    v.push(0x47);
    v.push(0x45);
    v.push(0x54);
    v.push(0x20);
    v.push(0x2F);
    v.push(0x20);
    v.push(0x48);
    v.push(0x54);
    v.push(0x54);
    v.push(0x50);
    v.push(0x2F);
    v.push(0x31);
    v.push(0x2E);
    v.push(0x31);
    v.push(0x0D);
    v.push(0x0A);
    proof {
        assert(v@ =~= root_request_line());
    }
    v
}

fn sleep_request_line_bytes() -> (v: Vec<u8>)
    ensures
        v@ == sleep_request_line(),
{
    let mut v: Vec<u8> = Vec::new();
    v.push(0x47);
    v.push(0x45);
    v.push(0x54);
    v.push(0x20);
    v.push(0x2F);
    v.push(0x73);
    v.push(0x6C);
    v.push(0x65);
    v.push(0x65);
    v.push(0x70);
    v.push(0x20);
    v.push(0x48);
    v.push(0x54);
    v.push(0x54);
    v.push(0x50);
    v.push(0x2F);
    v.push(0x31);
    v.push(0x2E);
    v.push(0x31);
    v.push(0x0D);
    v.push(0x0A);
    proof {
        assert(v@ =~= sleep_request_line());
    }
    v
}

/// Whether `data` starts with `prefix`.
fn has_prefix(data: &[u8], prefix: &[u8]) -> (r: bool)
    ensures
        r == prefix@.is_prefix_of(data@),
{
    if prefix.len() > data.len() {
        return false;
    }
    let mut i: usize = 0;
    while i < prefix.len()
        invariant
            i <= prefix@.len(),
            prefix@.len() <= data@.len(),
            forall|k: int| 0 <= k < i ==> prefix@[k] == data@[k],
        decreases prefix@.len() - i,
    {
        if prefix[i] != data[i] {
            return false;
        }
        i += 1;
    }
    proof {
        assert(prefix@ =~= data@.subrange(0, prefix@.len() as int));
    }
    true
}

/// Where a request is routed: the root page, the root page after a
/// deliberate delay, or the not-found page.
#[derive(Debug, PartialEq, Eq, Structural, Clone, Copy)]
pub enum Route {
    Root,
    Sleep,
    NotFound,
}

/// Routes a raw request: the root request line serves the greeting page, the
/// sleep request line serves it after a delay, and anything else gets the
/// not-found page.
pub fn route_request(request: &[u8]) -> (r: Route)
    ensures
        root_request_line().is_prefix_of(request@) ==> r == Route::Root,
        !root_request_line().is_prefix_of(request@) && sleep_request_line().is_prefix_of(request@)
            ==> r == Route::Sleep,
        !root_request_line().is_prefix_of(request@) && !sleep_request_line().is_prefix_of(request@)
            ==> r == Route::NotFound,
{
    let root = root_request_line_bytes();
    if has_prefix(request, root.as_slice()) {
        return Route::Root;
    }
    let sleep = sleep_request_line_bytes();
    if has_prefix(request, sleep.as_slice()) {
        return Route::Sleep;
    }
    Route::NotFound
}

/// The status line a route is answered with.
pub fn status_line(r: &Route) -> (s: &'static str)
    ensures
        (r is Root || r is Sleep) ==> s@ == "HTTP/1.1 200 OK\r\n\r\n"@,
        r is NotFound ==> s@ == "HTTP/1.1 404 NOT FOUND\r\n\r\n"@,
{
    match r {
        Route::Root => "HTTP/1.1 200 OK\r\n\r\n",
        Route::Sleep => "HTTP/1.1 200 OK\r\n\r\n",
        Route::NotFound => "HTTP/1.1 404 NOT FOUND\r\n\r\n",
    }
}

/// The file a route serves.
pub fn file_name(r: &Route) -> (s: &'static str)
    ensures
        (r is Root || r is Sleep) ==> s@ == "hello.html"@,
        r is NotFound ==> s@ == "404.html"@,
{
    match r {
        Route::Root => "hello.html",
        Route::Sleep => "hello.html",
        Route::NotFound => "404.html",
    }
}

/// A whole response: the status line directly followed by the page contents.
pub fn build_response(status: &str, contents: &str) -> (s: String)
    ensures
        s@ == status@ + contents@,
{
    let mut s = status.to_owned();
    s.append(contents);
    s
}

} // verus!
