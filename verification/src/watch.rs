//! Decisions of the inner watch loop: when a liveness-probe failure means the
//! device is gone, and what one watch step does with fresh readings.

use vstd::prelude::*;
use crate::tracker::Event;
use crate::tracker::Snapshot;
use crate::tracker::TrackerState;
use crate::tracker::spec_events;
use crate::tracker::spec_next_state;

verus! {

/// What a liveness probe came back with, as plain values: success, a named
/// method error carrying the bus error name, or any other failure.
pub struct ProbeResult {
    /// The error name of a method error, or `None` when the probe succeeded
    /// or failed some other way.
    pub method_error_name: Option<String>,
}

/// The one error name that signals a disconnected device.
pub open spec fn spec_disconnect_name() -> Seq<char> {
    "org.freedesktop.DBus.Error.UnknownMethod"@
}

/// True iff the probe failed with the recognized "method not supported"
/// error: the device is gone and the watch loop must end. Every other
/// outcome, success or failure, is treated as transient.
pub open spec fn spec_signals_disconnect(r: ProbeResult) -> bool {
    r.method_error_name is Some && r.method_error_name->0@ == spec_disconnect_name()
}

/// Decides whether a probe outcome ends the watch of this device.
pub fn probe_signals_disconnect(r: &ProbeResult) -> (b: bool)
    ensures
        b == spec_signals_disconnect(*r),
{
    match &r.method_error_name {
        Some(name) => {
            let disconnect = String::from_str("org.freedesktop.DBus.Error.UnknownMethod");
            name.eq(&disconnect)
        },
        None => false,
    }
}

/// Everything one watch-loop iteration consumes: the probe's outcome, then —
/// only if the probe did not signal a disconnect — the fresh readings.
pub struct WatchInput {
    pub probe: ProbeResult,
    pub snapshot: Snapshot,
}

/// What a finished run of the watch loop produced.
pub struct WatchOutcome {
    /// How many tracker polls ran before the loop ended.
    pub polls: usize,
    /// Every event fired across the run, in order.
    pub events: Vec<Event>,
    /// The monitoring state when the loop ended.
    pub state: TrackerState,
    /// Whether the loop ended because a probe signalled a disconnect, rather
    /// than because the inputs ran out.
    pub disconnected: bool,
}

/// The watch loop over a sequence of iteration inputs: poll after every probe
/// that does not signal a disconnect, stop at the first that does, never
/// touching that iteration's readings or any later one. Yields the number of
/// polls, the events in order, the final state, and whether a disconnect
/// ended the run.
pub open spec fn spec_run_watch(
    s: TrackerState,
    inputs: Seq<WatchInput>,
    low_enabled: bool,
    charging_enabled: bool,
) -> (int, Seq<Event>, TrackerState, bool)
    decreases inputs.len(),
{
    if inputs.len() == 0 {
        (0int, Seq::<Event>::empty(), s, false)
    } else if spec_signals_disconnect(inputs[0].probe) {
        (0int, Seq::<Event>::empty(), s, true)
    } else {
        let rest = spec_run_watch(
            spec_next_state(s, inputs[0].snapshot, low_enabled, charging_enabled),
            inputs.drop_first(),
            low_enabled,
            charging_enabled,
        );
        (
            1 + rest.0,
            spec_events(s, inputs[0].snapshot, low_enabled, charging_enabled) + rest.1,
            rest.2,
            rest.3,
        )
    }
}

/// Runs the inner watch loop over the given iteration inputs, exactly as the
/// daemon's live loop consumes probe outcomes and readings: each iteration
/// first decides on the probe, and only a probe that does not signal a
/// disconnect lets the tracker poll that iteration's snapshot.
pub fn run_watch(
    init: TrackerState,
    inputs: &Vec<WatchInput>,
    low_enabled: bool,
    charging_enabled: bool,
) -> (o: WatchOutcome)
    ensures
        ({
            let r = spec_run_watch(init, inputs@, low_enabled, charging_enabled);
            o.polls == r.0 && o.events@ == r.1 && o.state == r.2 && o.disconnected == r.3
        }),
{
    let ghost full = spec_run_watch(init, inputs@, low_enabled, charging_enabled);
    let mut i: usize = 0;
    let mut state = init;
    let mut events: Vec<Event> = Vec::new();
    let mut disconnected = false;
    proof {
        assert(inputs@.skip(0) =~= inputs@);
        assert(events@ + full.1 =~= full.1);
    }
    loop
        invariant_except_break
            !disconnected,
            ({
                let rest = spec_run_watch(state, inputs@.skip(i as int), low_enabled,
                    charging_enabled);
                full.0 == i + rest.0 && full.1 == events@ + rest.1 && full.2 == rest.2 && full.3
                    == rest.3
            }),
        invariant
            0 <= i <= inputs@.len(),
        ensures
            full.0 == i && full.1 == events@ && full.2 == state && full.3 == disconnected,
        decreases inputs@.len() - i,
    {
        let ghost rest = spec_run_watch(state, inputs@.skip(i as int), low_enabled,
            charging_enabled);
        if i == inputs.len() {
            proof {
                assert(inputs@.skip(i as int) =~= Seq::<WatchInput>::empty());
                assert(events@ + rest.1 =~= events@);
            }
            break;
        }
        proof {
            assert(inputs@.skip(i as int)[0] == inputs@[i as int]);
        }
        if probe_signals_disconnect(&inputs[i].probe) {
            disconnected = true;
            proof {
                assert(events@ + rest.1 =~= events@);
            }
            break;
        }
        let (next, mut fired) = state.poll(inputs[i].snapshot, low_enabled, charging_enabled);
        proof {
            assert(inputs@.skip(i as int).drop_first() =~= inputs@.skip(i as int + 1));
            assert(events@ + rest.1 =~= (events@ + fired@) + spec_run_watch(next, inputs@.skip(
                i as int + 1), low_enabled, charging_enabled).1);
        }
        events.append(&mut fired);
        state = next;
        i = i + 1;
    }
    WatchOutcome { polls: i, events, state, disconnected }
}

} // verus!
