//! Classification of an inbound request buffer.
//!
//! A request is classified by comparing the buffer's leading bytes against
//! two fixed request-line prefixes; everything else is answered with the
//! not-found page.

use vstd::prelude::*;

verus! {

/// Which canned response a request buffer selects.
#[derive(Clone, Copy, PartialEq, Eq, Structural, Debug)]
pub enum Route {
    /// The request line asked for `/`.
    Home,
    /// The request line asked for `/sleep`: same page as `Home`,
    /// delivered only after a fixed delay.
    Sleep,
    /// Any other request.
    NotFound,
}

/// The bytes of `GET / HTTP/1.1\r\n`.
pub open spec fn home_prefix() -> Seq<u8> {
    seq![
        71u8, 69u8, 84u8, 32u8, 47u8, 32u8,
        72u8, 84u8, 84u8, 80u8, 47u8, 49u8, 46u8, 49u8, 13u8, 10u8,
    ]
}

/// The bytes of `GET /sleep HTTP/1.1\r\n`.
pub open spec fn sleep_prefix() -> Seq<u8> {
    seq![
        71u8, 69u8, 84u8, 32u8, 47u8, 115u8, 108u8, 101u8, 101u8, 112u8, 32u8,
        72u8, 84u8, 84u8, 80u8, 47u8, 49u8, 46u8, 49u8, 13u8, 10u8,
    ]
}

/// The route selected by a request buffer: the home-page prefix wins,
/// then the sleep prefix, and anything else is not found.
pub open spec fn classify_spec(req: Seq<u8>) -> Route {
    if home_prefix().is_prefix_of(req) {
        Route::Home
    } else if sleep_prefix().is_prefix_of(req) {
        Route::Sleep
    } else {
        Route::NotFound
    }
}

/// The bytes of `GET / HTTP/1.1\r\n`, as a vector.
pub fn home_prefix_bytes() -> (v: Vec<u8>)
    ensures
        v@ == home_prefix(),
{
    let mut v: Vec<u8> = Vec::new();
    v.push(71u8);
    v.push(69u8);
    v.push(84u8);
    v.push(32u8);
    v.push(47u8);
    v.push(32u8);
    v.push(72u8);
    v.push(84u8);
    v.push(84u8);
    v.push(80u8);
    v.push(47u8);
    v.push(49u8);
    v.push(46u8);
    v.push(49u8);
    v.push(13u8);
    v.push(10u8);
    proof {
        assert(v@ =~= home_prefix());
    }
    v
}

/// The bytes of `GET /sleep HTTP/1.1\r\n`, as a vector.
pub fn sleep_prefix_bytes() -> (v: Vec<u8>)
    ensures
        v@ == sleep_prefix(),
{
    let mut v: Vec<u8> = Vec::new();
    v.push(71u8);
    v.push(69u8);
    v.push(84u8);
    v.push(32u8);
    v.push(47u8);
    v.push(115u8);
    v.push(108u8);
    v.push(101u8);
    v.push(101u8);
    v.push(112u8);
    v.push(32u8);
    v.push(72u8);
    v.push(84u8);
    v.push(84u8);
    v.push(80u8);
    v.push(47u8);
    v.push(49u8);
    v.push(46u8);
    v.push(49u8);
    v.push(13u8);
    v.push(10u8);
    proof {
        assert(v@ =~= sleep_prefix());
    }
    v
}

/// Whether `prefix` is a prefix of `buf`.
pub fn starts_with(buf: &Vec<u8>, prefix: &Vec<u8>) -> (r: bool)
    ensures
        r == prefix@.is_prefix_of(buf@),
{
    if prefix.len() > buf.len() {
        return false;
    }
    for i in 0..prefix.len()
        invariant
            prefix@.len() <= buf@.len(),
            forall|j: int| 0 <= j < i ==> buf@[j] == prefix@[j],
    {
        if buf[i] != prefix[i] {
            proof {
                assert(buf@.subrange(0, prefix@.len() as int)[i as int] == buf@[i as int]);
            }
            return false;
        }
    }
    proof {
        assert(prefix@ =~= buf@.subrange(0, prefix@.len() as int));
    }
    true
}

/// Classify a request buffer.
pub fn classify(buffer: &Vec<u8>) -> (r: Route)
    ensures
        r == classify_spec(buffer@),
{
    let home = home_prefix_bytes();
    if starts_with(buffer, &home) {
        return Route::Home;
    }
    let sleep = sleep_prefix_bytes();
    if starts_with(buffer, &sleep) {
        return Route::Sleep;
    }
    Route::NotFound
}

} // verus!
