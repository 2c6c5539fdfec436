//! The handler's control flow as an explicit state machine.
//!
//! One connection's exchange runs `Accepted → Reading → (Sleeping?) →
//! Responding → Closed`, never back. Each step consumes the event that ends
//! the previous action (the connection arrived, the read finished, the delay
//! elapsed, the write finished) and commands the next action. A driver that
//! owns the real network and the real clock performs the actions and feeds
//! the events back; everything the machine decides — which route, what to
//! write, and that a delayed route is written only after its delay — is
//! decided here.

use vstd::prelude::*;
use crate::request::{Route, classify, classify_spec};
use crate::response::{build_response, response_spec};

verus! {

/// Where one connection's exchange stands.
pub enum Phase {
    /// The connection was handed to a fresh handler.
    Accepted,
    /// The single read of the request buffer is in flight.
    Reading,
    /// The request asked for the delayed route; the delay is running and
    /// nothing has been written.
    Sleeping { route: Route },
    /// The response for `route` is being written.
    Responding { route: Route },
    /// The exchange is over; the stream may be released.
    Closed,
}

/// What ended the previous action.
pub enum Event {
    /// The connection arrived.
    Arrived,
    /// The read finished and left this buffer.
    ReadDone { buffer: Vec<u8> },
    /// The fixed delay elapsed.
    SleepDone,
    /// The response was written and flushed.
    WriteDone,
}

/// What the driver must do next.
pub enum Action {
    /// Read once into a fresh 1024-byte buffer.
    DoRead,
    /// Pause this handler for the fixed delay; nothing is written meanwhile.
    DoSleep,
    /// Write these bytes in one operation, then flush.
    DoWrite { response: Vec<u8> },
    /// Release the stream.
    DoClose,
}

/// The event the machine in `phase` waits for; `Closed` waits for nothing.
pub open spec fn expects(phase: Phase, event: Event) -> bool {
    match phase {
        Phase::Accepted => event is Arrived,
        Phase::Reading => event is ReadDone,
        Phase::Sleeping { .. } => event is SleepDone,
        Phase::Responding { .. } => event is WriteDone,
        Phase::Closed => false,
    }
}

/// The buffer a `ReadDone` event carries.
pub open spec fn event_buffer(event: Event) -> Seq<u8> {
    match event {
        Event::ReadDone { buffer } => buffer@,
        _ => Seq::empty(),
    }
}

/// The route a phase that has one carries.
pub open spec fn phase_route(phase: Phase) -> Route {
    match phase {
        Phase::Sleeping { route } => route,
        Phase::Responding { route } => route,
        _ => Route::NotFound,
    }
}

/// The phase after consuming `event` in `phase`.
pub open spec fn next_phase_spec(phase: Phase, event: Event) -> Phase {
    match phase {
        Phase::Accepted => Phase::Reading,
        Phase::Reading => {
            let route = classify_spec(event_buffer(event));
            if route is Sleep {
                Phase::Sleeping { route }
            } else {
                Phase::Responding { route }
            }
        },
        Phase::Sleeping { route } => Phase::Responding { route },
        Phase::Responding { .. } => Phase::Closed,
        Phase::Closed => Phase::Closed,
    }
}

/// Whether consuming `event` in `phase` commands the write: only a read
/// that classified to an undelayed route, or the end of the delay.
pub open spec fn step_writes(phase: Phase, event: Event) -> bool {
    ||| (phase is Reading && event is ReadDone
            && classify_spec(event_buffer(event)) != Route::Sleep)
    ||| (phase is Sleeping && event is SleepDone)
}

/// The route whose response a writing step writes.
pub open spec fn step_route(phase: Phase, event: Event) -> Route {
    match phase {
        Phase::Reading => classify_spec(event_buffer(event)),
        _ => phase_route(phase),
    }
}

/// The position of a phase along the one-way exchange.
pub open spec fn phase_rank(phase: Phase) -> int {
    match phase {
        Phase::Accepted => 0,
        Phase::Reading => 1,
        Phase::Sleeping { .. } => 2,
        Phase::Responding { .. } => 3,
        Phase::Closed => 4,
    }
}

/// The payload a `DoWrite` action carries.
pub open spec fn action_payload(action: Action) -> Seq<u8> {
    match action {
        Action::DoWrite { response } => response@,
        _ => Seq::empty(),
    }
}

/// The event the machine waits for, decided executably, so an unverified
/// driver can test it before stepping.
pub fn expects_event(phase: &Phase, event: &Event) -> (b: bool)
    ensures
        b == expects(*phase, *event),
{
    match (phase, event) {
        (Phase::Accepted, Event::Arrived) => true,
        (Phase::Reading, Event::ReadDone { .. }) => true,
        (Phase::Sleeping { .. }, Event::SleepDone) => true,
        (Phase::Responding { .. }, Event::WriteDone) => true,
        _ => false,
    }
}

/// Consume the event that ended the previous action; decide the next phase
/// and command the next action.
pub fn step(phase: Phase, event: Event, home: &Vec<u8>, not_found: &Vec<u8>) -> (r: (Phase, Action))
    requires
        expects(phase, event),
    ensures
        r.0 == next_phase_spec(phase, event),
        r.1 is DoWrite <==> step_writes(phase, event),
        r.1 is DoWrite ==> action_payload(r.1)
            == response_spec(step_route(phase, event), home@, not_found@),
        phase is Accepted ==> r.1 is DoRead,
        phase is Reading && classify_spec(event_buffer(event)) == Route::Sleep
            ==> r.1 is DoSleep,
        phase is Responding ==> r.1 is DoClose,
{
    match phase {
        Phase::Accepted => (Phase::Reading, Action::DoRead),
        Phase::Reading => {
            match event {
                Event::ReadDone { buffer } => {
                    let route = classify(&buffer);
                    match route {
                        Route::Sleep => (Phase::Sleeping { route }, Action::DoSleep),
                        _ => {
                            let response = build_response(route, home, not_found);
                            (Phase::Responding { route }, Action::DoWrite { response })
                        },
                    }
                },
                _ => unreached(),
            }
        },
        Phase::Sleeping { route } => {
            let response = build_response(route, home, not_found);
            (Phase::Responding { route }, Action::DoWrite { response })
        },
        Phase::Responding { .. } => (Phase::Closed, Action::DoClose),
        Phase::Closed => unreached(),
    }
}

} // verus!
