//! Construction of the canned responses.
//!
//! A response is a literal status line concatenated directly with the bytes
//! of one of two static resources (the home page or the not-found page):
//! no header fields, no framing.

use vstd::prelude::*;
use crate::request::Route;

verus! {

/// The bytes of `HTTP/1.1 200 OK\r\n\r\n`.
pub open spec fn ok_status() -> Seq<u8> {
    seq![
        72u8, 84u8, 84u8, 80u8, 47u8, 49u8, 46u8, 49u8, 32u8,
        50u8, 48u8, 48u8, 32u8, 79u8, 75u8, 13u8, 10u8, 13u8, 10u8,
    ]
}

/// The bytes of `HTTP/1.1 404 NOT FOUND\r\n\r\n`.
pub open spec fn not_found_status() -> Seq<u8> {
    seq![
        72u8, 84u8, 84u8, 80u8, 47u8, 49u8, 46u8, 49u8, 32u8,
        52u8, 48u8, 52u8, 32u8, 78u8, 79u8, 84u8, 32u8,
        70u8, 79u8, 85u8, 78u8, 68u8, 13u8, 10u8, 13u8, 10u8,
    ]
}

/// The status line a route is answered with: the sleep route is answered
/// exactly like the home route, only later.
pub open spec fn status_line_spec(route: Route) -> Seq<u8> {
    match route {
        Route::Home => ok_status(),
        Route::Sleep => ok_status(),
        Route::NotFound => not_found_status(),
    }
}

/// The resource a route is answered with: the home page for both successful
/// routes, the not-found page otherwise.
pub open spec fn body_spec(route: Route, home: Seq<u8>, not_found: Seq<u8>) -> Seq<u8> {
    match route {
        Route::Home => home,
        Route::Sleep => home,
        Route::NotFound => not_found,
    }
}

/// The full response for a route: status line, then the resource bytes,
/// verbatim.
pub open spec fn response_spec(route: Route, home: Seq<u8>, not_found: Seq<u8>) -> Seq<u8> {
    status_line_spec(route) + body_spec(route, home, not_found)
}

/// The bytes of `HTTP/1.1 200 OK\r\n\r\n`, as a vector.
pub fn ok_status_bytes() -> (v: Vec<u8>)
    ensures
        v@ == ok_status(),
{
    let mut v: Vec<u8> = Vec::new();
    v.push(72u8);
    v.push(84u8);
    v.push(84u8);
    v.push(80u8);
    v.push(47u8);
    v.push(49u8);
    v.push(46u8);
    v.push(49u8);
    v.push(32u8);
    v.push(50u8);
    v.push(48u8);
    v.push(48u8);
    v.push(32u8);
    v.push(79u8);
    v.push(75u8);
    v.push(13u8);
    v.push(10u8);
    v.push(13u8);
    v.push(10u8);
    proof {
        assert(v@ =~= ok_status());
    }
    v
}

/// The bytes of `HTTP/1.1 404 NOT FOUND\r\n\r\n`, as a vector.
pub fn not_found_status_bytes() -> (v: Vec<u8>)
    ensures
        v@ == not_found_status(),
{
    let mut v: Vec<u8> = Vec::new();
    v.push(72u8);
    v.push(84u8);
    v.push(84u8);
    v.push(80u8);
    v.push(47u8);
    v.push(49u8);
    v.push(46u8);
    v.push(49u8);
    v.push(32u8);
    v.push(52u8);
    v.push(48u8);
    v.push(52u8);
    v.push(32u8);
    v.push(78u8);
    v.push(79u8);
    v.push(84u8);
    v.push(32u8);
    v.push(70u8);
    v.push(79u8);
    v.push(85u8);
    v.push(78u8);
    v.push(68u8);
    v.push(13u8);
    v.push(10u8);
    v.push(13u8);
    v.push(10u8);
    proof {
        assert(v@ =~= not_found_status());
    }
    v
}

/// The status line for a route, as a vector.
pub fn status_line_bytes(route: Route) -> (v: Vec<u8>)
    ensures
        v@ == status_line_spec(route),
{
    match route {
        Route::Home => ok_status_bytes(),
        Route::Sleep => ok_status_bytes(),
        Route::NotFound => not_found_status_bytes(),
    }
}

/// Build the full response for a route from the two static resources.
pub fn build_response(route: Route, home: &Vec<u8>, not_found: &Vec<u8>) -> (resp: Vec<u8>)
    ensures
        resp@ == response_spec(route, home@, not_found@),
{
    let mut resp = status_line_bytes(route);
    let body: &Vec<u8> = match route {
        Route::Home => home,
        Route::Sleep => home,
        Route::NotFound => not_found,
    };
    let mut i: usize = 0;
    while i < body.len()
        invariant
            i <= body@.len(),
            resp@ == status_line_spec(route) + body@.take(i as int),
        decreases body@.len() - i,
    {
        resp.push(body[i]);
        proof {
            assert(status_line_spec(route) + body@.take(i as int) + seq![body@[i as int]]
                =~= status_line_spec(route) + body@.take(i as int + 1));
        }
        i = i + 1;
    }
    proof {
        assert(body@.take(body@.len() as int) =~= body@);
    }
    resp
}

} // verus!
