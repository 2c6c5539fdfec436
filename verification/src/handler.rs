//! The per-connection handler.
//!
//! A handler owns one stream for one request/response exchange: it reads
//! once into a fixed 1024-byte buffer (a request split across reads is not
//! reassembled), classifies the buffer by its prefix, and writes the full
//! canned response back, then flushes. The sleep route's delay is the
//! driver's concern (see `machine`): the pure exchange below is what both
//! routes write in the end.

use vstd::prelude::*;
use crate::request::{Route, classify, classify_spec};
use crate::response::{build_response, response_spec};
use crate::transport::Transport;

verus! {

/// How many bytes one read fills at most.
pub const REQUEST_BUFFER_LEN: usize = 1024;

/// The buffer a handler sees after its single read of a stream whose peer
/// sent `inbound`: the first 1024 inbound bytes, zero-padded when the peer
/// sent fewer.
pub open spec fn request_buffer_spec(inbound: Seq<u8>) -> Seq<u8> {
    Seq::new(REQUEST_BUFFER_LEN as nat, |i: int|
        if i < inbound.len() { inbound[i] } else { 0u8 }
    )
}

/// Everything a handler writes back on a stream whose peer sent `inbound`,
/// given the two static resources.
pub open spec fn handled_response(inbound: Seq<u8>, home: Seq<u8>, not_found: Seq<u8>) -> Seq<u8> {
    response_spec(classify_spec(request_buffer_spec(inbound)), home, not_found)
}

/// A zeroed buffer of length `n`.
pub fn zero_buffer(n: usize) -> (v: Vec<u8>)
    ensures
        v@ == Seq::new(n as nat, |i: int| 0u8),
{
    let mut v: Vec<u8> = Vec::new();
    let mut i: usize = 0;
    while i < n
        invariant
            i <= n,
            v@.len() == i,
            forall|j: int| 0 <= j < i ==> v@[j] == 0u8,
        decreases n - i,
    {
        v.push(0u8);
        i = i + 1;
    }
    proof {
        assert(v@ =~= Seq::new(n as nat, |i: int| 0u8));
    }
    v
}

/// Read the request: fill a fresh 1024-byte buffer with one read, without
/// retrying a short read. Nothing is written.
pub fn read_request<T: Transport>(stream: &mut T) -> (buf: Vec<u8>)
    ensures
        buf@ == request_buffer_spec(old(stream).inbound()),
        final(stream).inbound() == old(stream).inbound(),
        final(stream).outbound() == old(stream).outbound(),
{
    let mut buf = zero_buffer(REQUEST_BUFFER_LEN);
    let _n = stream.read_into(&mut buf);
    proof {
        assert(buf@ =~= request_buffer_spec(old(stream).inbound()));
    }
    buf
}

/// Answer an already classified request: build the route's response, write
/// it in one operation, and flush so it is delivered before the handler
/// ends.
pub fn respond<T: Transport>(stream: &mut T, route: Route, home: &Vec<u8>, not_found: &Vec<u8>)
    ensures
        final(stream).outbound() == old(stream).outbound()
            + response_spec(route, home@, not_found@),
        final(stream).inbound() == old(stream).inbound(),
{
    let resp = build_response(route, home, not_found);
    stream.write_all(&resp);
    stream.flush();
}

/// Handle one connection: read once, classify, respond. Returns the route,
/// so a driver that owes the sleep route its delay can tell. The response
/// written is a function of the inbound bytes and the two resources alone.
pub fn handle_connection<T: Transport>(stream: &mut T, home: &Vec<u8>, not_found: &Vec<u8>) -> (route: Route)
    ensures
        route == classify_spec(request_buffer_spec(old(stream).inbound())),
        final(stream).outbound() == old(stream).outbound()
            + handled_response(old(stream).inbound(), home@, not_found@),
        final(stream).inbound() == old(stream).inbound(),
{
    let buf = read_request(stream);
    let route = classify(&buf);
    respond(stream, route, home, not_found);
    route
}

} // verus!
