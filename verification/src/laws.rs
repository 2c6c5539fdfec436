//! The guarantees the handler gives, stated once and proved.
//!
//! Each law is phrased over the spec-level pipeline: the zero-padded,
//! truncated request buffer, its classification, and the response bytes,
//! which is exactly what `handler::handle_connection` promises to write.

use vstd::prelude::*;
use crate::request::{Route, home_prefix, sleep_prefix, classify_spec};
use crate::response::{ok_status, not_found_status, response_spec};
use crate::handler::{REQUEST_BUFFER_LEN, request_buffer_spec, handled_response};
use crate::machine::{
    Phase, Event, expects, next_phase_spec, phase_rank, step_writes, step_route, event_buffer,
};

verus! {

/// Neither request-line prefix contains a zero byte, so zero padding can
/// never complete a partial match.
proof fn lemma_prefix_bytes_nonzero()
    ensures
        forall|i: int| 0 <= i < home_prefix().len() ==> home_prefix()[i] != 0u8,
        forall|i: int| 0 <= i < sleep_prefix().len() ==> sleep_prefix()[i] != 0u8,
{
}

/// Truncating the inbound bytes to the buffer length and zero-padding a
/// short read neither makes nor breaks a match against a zero-free prefix
/// that fits in the buffer.
proof fn lemma_padding_keeps_prefix(p: Seq<u8>, inbound: Seq<u8>)
    requires
        p.len() <= REQUEST_BUFFER_LEN,
        forall|i: int| 0 <= i < p.len() ==> p[i] != 0u8,
    ensures
        p.is_prefix_of(request_buffer_spec(inbound)) <==> p.is_prefix_of(inbound),
{
    let buf = request_buffer_spec(inbound);
    if p.is_prefix_of(inbound) {
        assert forall|i: int| 0 <= i < p.len() implies buf[i] == p[i] by {
            assert(p[i] == inbound.subrange(0, p.len() as int)[i]);
        }
        assert(p =~= buf.subrange(0, p.len() as int));
    }
    if p.is_prefix_of(buf) {
        assert forall|i: int| 0 <= i < p.len() implies p[i] == buf[i] by {
            assert(p[i] == buf.subrange(0, p.len() as int)[i]);
        }
        if p.len() > inbound.len() {
            let i = inbound.len() as int;
            assert(buf[i] == 0u8);
            assert(false);
        }
        assert(p =~= inbound.subrange(0, p.len() as int));
    }
}

/// The two request-line prefixes disagree at their sixth byte, so no input
/// matches both.
proof fn lemma_prefixes_disjoint(req: Seq<u8>)
    ensures
        !(home_prefix().is_prefix_of(req) && sleep_prefix().is_prefix_of(req)),
{
    if home_prefix().is_prefix_of(req) && sleep_prefix().is_prefix_of(req) {
        assert(home_prefix()[5] == req.subrange(0, home_prefix().len() as int)[5]);
        assert(sleep_prefix()[5] == req.subrange(0, sleep_prefix().len() as int)[5]);
        assert(false);
    }
}

/// Law: every input that begins with exactly `GET / HTTP/1.1\r\n` is
/// answered with the OK status line followed by the exact home-page bytes.
pub proof fn lemma_home_request_response(inbound: Seq<u8>, home: Seq<u8>, not_found: Seq<u8>)
    requires
        home_prefix().is_prefix_of(inbound),
    ensures
        handled_response(inbound, home, not_found) == ok_status() + home,
{
    lemma_prefix_bytes_nonzero();
    lemma_padding_keeps_prefix(home_prefix(), inbound);
    assert(classify_spec(request_buffer_spec(inbound)) == Route::Home);
}

/// Law: every input that begins with exactly `GET /sleep HTTP/1.1\r\n` is
/// answered, once the delay has elapsed, with the very same bytes as the
/// home route: the OK status line followed by the home-page bytes. That
/// nothing is written before the delay elapses is
/// `lemma_no_write_before_delay`.
pub proof fn lemma_sleep_request_response(inbound: Seq<u8>, home: Seq<u8>, not_found: Seq<u8>)
    requires
        sleep_prefix().is_prefix_of(inbound),
    ensures
        handled_response(inbound, home, not_found) == ok_status() + home,
{
    lemma_prefix_bytes_nonzero();
    lemma_padding_keeps_prefix(sleep_prefix(), inbound);
    lemma_padding_keeps_prefix(home_prefix(), inbound);
    lemma_prefixes_disjoint(inbound);
    assert(classify_spec(request_buffer_spec(inbound)) == Route::Sleep);
}

/// Law: every other input — one that begins with neither request line — is
/// answered with the not-found status line followed by the exact
/// not-found-page bytes.
pub proof fn lemma_other_request_response(inbound: Seq<u8>, home: Seq<u8>, not_found: Seq<u8>)
    requires
        !home_prefix().is_prefix_of(inbound),
        !sleep_prefix().is_prefix_of(inbound),
    ensures
        handled_response(inbound, home, not_found) == not_found_status() + not_found,
{
    lemma_prefix_bytes_nonzero();
    lemma_padding_keeps_prefix(home_prefix(), inbound);
    lemma_padding_keeps_prefix(sleep_prefix(), inbound);
    assert(classify_spec(request_buffer_spec(inbound)) == Route::NotFound);
}

/// Law: a request for the delayed route is never written to before the
/// delay elapses. Its read step commands no write and moves the machine to
/// `Sleeping`, and from `Sleeping` only the end of the delay commands the
/// write.
pub proof fn lemma_no_write_before_delay(buffer: Vec<u8>, event: Event)
    requires
        classify_spec(buffer@) == Route::Sleep,
    ensures
        !step_writes(Phase::Reading, Event::ReadDone { buffer }),
        next_phase_spec(Phase::Reading, Event::ReadDone { buffer })
            == (Phase::Sleeping { route: Route::Sleep }),
        step_writes(Phase::Sleeping { route: Route::Sleep }, event) ==> event is SleepDone,
{
    assert(event_buffer(Event::ReadDone { buffer }) == buffer@);
}

/// Law: a request for the home route never commands the delay: its read
/// step answers at once, with the home response, so another connection's
/// sleep cannot stand between this request and its response.
pub proof fn lemma_home_never_delayed(buffer: Vec<u8>)
    requires
        classify_spec(buffer@) == Route::Home,
    ensures
        step_writes(Phase::Reading, Event::ReadDone { buffer }),
        next_phase_spec(Phase::Reading, Event::ReadDone { buffer })
            == (Phase::Responding { route: Route::Home }),
        step_route(Phase::Reading, Event::ReadDone { buffer }) == Route::Home,
{
    assert(event_buffer(Event::ReadDone { buffer }) == buffer@);
}

/// Law: the exchange runs one way — `Accepted`, `Reading`, perhaps
/// `Sleeping`, `Responding`, `Closed` — and no step returns to an earlier
/// stage.
pub proof fn lemma_phases_advance(phase: Phase, event: Event)
    requires
        expects(phase, event),
    ensures
        phase_rank(next_phase_spec(phase, event)) > phase_rank(phase),
{
}

/// Law: the state machine answers exactly as the one-shot handler does.
/// Whatever a run of the machine writes for a read of `buffer` — at the
/// read step or after the delay — is the very response the handler's own
/// contract promises for the inbound bytes the buffer was read from.
pub proof fn lemma_machine_matches_handler(inbound: Seq<u8>, home: Seq<u8>, not_found: Seq<u8>, buffer: Vec<u8>)
    requires
        buffer@ == request_buffer_spec(inbound),
    ensures
        step_route(Phase::Reading, Event::ReadDone { buffer })
            == classify_spec(request_buffer_spec(inbound)),
        response_spec(step_route(Phase::Reading, Event::ReadDone { buffer }), home, not_found)
            == handled_response(inbound, home, not_found),
        step_route(
            (Phase::Sleeping { route: classify_spec(buffer@) }),
            Event::SleepDone,
        ) == classify_spec(request_buffer_spec(inbound)),
{
    assert(event_buffer(Event::ReadDone { buffer }) == buffer@);
}

/// Law: responses are idempotent across connections. What a handler writes
/// is a function of the inbound bytes and the two resources alone, so the
/// same request on two independent connections gets byte-identical
/// responses.
pub proof fn lemma_idempotent_responses(in1: Seq<u8>, in2: Seq<u8>, home: Seq<u8>, not_found: Seq<u8>)
    requires
        in1 == in2,
    ensures
        handled_response(in1, home, not_found) == handled_response(in2, home, not_found),
{
}

} // verus!
