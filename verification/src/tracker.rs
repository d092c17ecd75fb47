//! The battery state tracker: given the previous per-device monitoring state
//! and a freshly read snapshot, compute the next state and the notification
//! events that fire.

use vstd::prelude::*;
use crate::LOW_BATTERY_THRESHOLD;

verus! {

/// The charging signal reported by a device on each poll.
#[derive(Clone, Copy, PartialEq, Eq, Structural, Debug)]
pub enum ChargeState {
    Charging,
    Discharging,
    Unknown,
}

/// A notification-worthy transition detected by one poll cycle.
///
/// The percentage shown in a notification is read by the caller at send time;
/// the tracker itself only decides which events fire.
#[derive(Clone, Copy, PartialEq, Eq, Structural, Debug)]
pub enum Event {
    BatteryIncreased,
    LowBattery,
    NowCharging,
}

/// Per-device monitoring state, alive for one inner watch cycle and discarded
/// when the device becomes unreachable.
#[derive(Clone, Copy, PartialEq, Eq, Structural, Debug)]
pub struct TrackerState {
    /// The last battery level taken into account, on the 0-100 scale the
    /// device reports.
    pub last_battery_level: u32,
    /// Sticky: set on a transition into charging, cleared on a transition out.
    pub is_charging: bool,
    /// Sticky: set when the level crosses below the low threshold, cleared
    /// when it crosses back at or above it.
    pub is_low_battery: bool,
}

/// One poll's readings, taken together as one snapshot.
#[derive(Clone, Copy, PartialEq, Eq, Structural, Debug)]
pub struct Snapshot {
    pub battery_level: u32,
    pub charge_state: ChargeState,
}

/// The level strictly increased since the last accounted reading.
pub open spec fn level_increased(s: TrackerState, snap: Snapshot) -> bool {
    snap.battery_level > s.last_battery_level
}

/// The level crossed below the threshold while the low-battery class is
/// enabled: the low-battery event fires and the flag is set.
pub open spec fn low_entry(s: TrackerState, snap: Snapshot, low_enabled: bool) -> bool {
    snap.battery_level < LOW_BATTERY_THRESHOLD && !s.is_low_battery && low_enabled
}

/// The level crossed back at or above the threshold while the class is
/// enabled: the flag clears silently, with no event.
pub open spec fn low_exit(s: TrackerState, snap: Snapshot, low_enabled: bool) -> bool {
    snap.battery_level >= LOW_BATTERY_THRESHOLD && s.is_low_battery && low_enabled
}

/// The device started charging while the charging class is enabled: the
/// charging event fires and the flag is set.
pub open spec fn charging_entry(s: TrackerState, snap: Snapshot, charging_enabled: bool) -> bool {
    snap.charge_state == ChargeState::Charging && !s.is_charging && charging_enabled
}

/// The device went back to discharging while the class is enabled: the flag
/// clears silently, with no event.
pub open spec fn charging_exit(s: TrackerState, snap: Snapshot, charging_enabled: bool) -> bool {
    snap.charge_state == ChargeState::Discharging && s.is_charging && charging_enabled
}

/// The next monitoring state after one poll. `last_battery_level` is updated
/// by a level increase and by every low-battery or charging-exit edge; the
/// two sticky flags change only on their own edge crossings.
pub open spec fn spec_next_state(
    s: TrackerState,
    snap: Snapshot,
    low_enabled: bool,
    charging_enabled: bool,
) -> TrackerState {
    TrackerState {
        last_battery_level: if level_increased(s, snap) || low_entry(s, snap, low_enabled)
            || low_exit(s, snap, low_enabled) || charging_exit(s, snap, charging_enabled) {
            snap.battery_level
        } else {
            s.last_battery_level
        },
        is_charging: if charging_entry(s, snap, charging_enabled) {
            true
        } else if charging_exit(s, snap, charging_enabled) {
            false
        } else {
            s.is_charging
        },
        is_low_battery: if low_entry(s, snap, low_enabled) {
            true
        } else if low_exit(s, snap, low_enabled) {
            false
        } else {
            s.is_low_battery
        },
    }
}

/// The events one poll emits, in their fixed order: a level increase first,
/// then a low-battery entry, then a charging entry. Exits are silent.
pub open spec fn spec_events(
    s: TrackerState,
    snap: Snapshot,
    low_enabled: bool,
    charging_enabled: bool,
) -> Seq<Event> {
    let a = if level_increased(s, snap) {
        seq![Event::BatteryIncreased]
    } else {
        Seq::<Event>::empty()
    };
    let b = if low_entry(s, snap, low_enabled) {
        seq![Event::LowBattery]
    } else {
        Seq::<Event>::empty()
    };
    let c = if charging_entry(s, snap, charging_enabled) {
        seq![Event::NowCharging]
    } else {
        Seq::<Event>::empty()
    };
    a + b + c
}

impl TrackerState {
    /// The state a freshly matched device starts in: its first reading, not
    /// charging, not low.
    pub fn new(initial_level: u32) -> (s: TrackerState)
        ensures
            s.last_battery_level == initial_level,
            !s.is_charging,
            !s.is_low_battery,
    {
        TrackerState { last_battery_level: initial_level, is_charging: false, is_low_battery: false }
    }

    /// One poll cycle: all five checks see the same previous state and the
    /// same snapshot, and the new state and the fired events come out
    /// together. Level-increase events are unconditional; low-battery and
    /// charging edges act only while their notification class is enabled.
    pub fn poll(
        &self,
        snap: Snapshot,
        low_enabled: bool,
        charging_enabled: bool,
    ) -> (r: (TrackerState, Vec<Event>))
        ensures
            r.0 == spec_next_state(*self, snap, low_enabled, charging_enabled),
            r.1@ == spec_events(*self, snap, low_enabled, charging_enabled),
    {
        let mut next = *self;
        let mut events: Vec<Event> = Vec::new();

        if snap.battery_level > self.last_battery_level {
            events.push(Event::BatteryIncreased);
            next.last_battery_level = snap.battery_level;
        }
        if snap.battery_level < LOW_BATTERY_THRESHOLD && !self.is_low_battery && low_enabled {
            events.push(Event::LowBattery);
            next.is_low_battery = true;
            next.last_battery_level = snap.battery_level;
        }
        if snap.battery_level >= LOW_BATTERY_THRESHOLD && self.is_low_battery && low_enabled {
            next.is_low_battery = false;
            next.last_battery_level = snap.battery_level;
        }
        if matches!(snap.charge_state, ChargeState::Charging) && !self.is_charging
            && charging_enabled {
            events.push(Event::NowCharging);
            next.is_charging = true;
        }
        if matches!(snap.charge_state, ChargeState::Discharging) && self.is_charging
            && charging_enabled {
            next.is_charging = false;
            next.last_battery_level = snap.battery_level;
        }

        proof {
            assert(events@ =~= spec_events(*self, snap, low_enabled, charging_enabled));
        }
        (next, events)
    }
}

/// Run the tracker over a whole sequence of battery-level readings, with the
/// charge signal unknown throughout: the final state, and every event fired
/// along the way, in order.
pub open spec fn spec_run_levels(
    s: TrackerState,
    levels: Seq<u32>,
    low_enabled: bool,
    charging_enabled: bool,
) -> (TrackerState, Seq<Event>)
    decreases levels.len(),
{
    if levels.len() == 0 {
        (s, Seq::<Event>::empty())
    } else {
        let snap = Snapshot { battery_level: levels[0], charge_state: ChargeState::Unknown };
        let rest = spec_run_levels(
            spec_next_state(s, snap, low_enabled, charging_enabled),
            levels.drop_first(),
            low_enabled,
            charging_enabled,
        );
        (rest.0, spec_events(s, snap, low_enabled, charging_enabled) + rest.1)
    }
}

/// How many battery-increase events a sequence of events holds.
pub open spec fn count_increase(es: Seq<Event>) -> int
    decreases es.len(),
{
    if es.len() == 0 {
        0
    } else {
        (if es[0] == Event::BatteryIncreased {
            1int
        } else {
            0int
        }) + count_increase(es.drop_first())
    }
}

/// How many readings of `levels` strictly exceed the reading before them,
/// with `prev` standing before the first.
pub open spec fn count_strict_increases(prev: u32, levels: Seq<u32>) -> int
    decreases levels.len(),
{
    if levels.len() == 0 {
        0
    } else {
        (if levels[0] > prev {
            1int
        } else {
            0int
        }) + count_strict_increases(levels[0], levels.drop_first())
    }
}

/// A one-event sequence holds one battery-increase event or none.
proof fn lemma_count_increase_single(e: Event)
    ensures
        count_increase(seq![e]) == (if e == Event::BatteryIncreased {
            1int
        } else {
            0int
        }),
{
    assert(seq![e].drop_first() =~= Seq::<Event>::empty());
    assert(count_increase(Seq::<Event>::empty()) == 0);
}

/// Battery-increase events add up across concatenation.
proof fn lemma_count_increase_concat(x: Seq<Event>, y: Seq<Event>)
    ensures
        count_increase(x + y) == count_increase(x) + count_increase(y),
    decreases x.len(),
{
    if x.len() == 0 {
        assert(x + y =~= y);
    } else {
        assert((x + y).drop_first() =~= x.drop_first() + y);
        lemma_count_increase_concat(x.drop_first(), y);
    }
}

/// Over any non-decreasing sequence of battery-level readings that starts at
/// or above the tracker's last accounted level, the tracker emits exactly one
/// battery-increase event per strict increase — none skipped, none repeated —
/// and ends with `last_battery_level` equal to the last reading.
pub proof fn lemma_increase_events_nondecreasing(
    s: TrackerState,
    levels: Seq<u32>,
    low_enabled: bool,
    charging_enabled: bool,
)
    requires
        forall|i: int| 0 <= i && i + 1 < levels.len() ==> #[trigger] levels[i] <= levels[i + 1],
        levels.len() > 0 ==> s.last_battery_level <= levels[0],
    ensures
        count_increase(spec_run_levels(s, levels, low_enabled, charging_enabled).1)
            == count_strict_increases(s.last_battery_level, levels),
        spec_run_levels(s, levels, low_enabled, charging_enabled).0.last_battery_level == (
        if levels.len() > 0 {
            levels.last()
        } else {
            s.last_battery_level
        }),
    decreases levels.len(),
{
    if levels.len() > 0 {
        let snap = Snapshot { battery_level: levels[0], charge_state: ChargeState::Unknown };
        let next = spec_next_state(s, snap, low_enabled, charging_enabled);
        assert(next.last_battery_level == levels[0]);
        let step_events = spec_events(s, snap, low_enabled, charging_enabled);
        assert(count_increase(step_events) == (if levels[0] > s.last_battery_level {
            1int
        } else {
            0int
        })) by {
            let a = if level_increased(s, snap) {
                seq![Event::BatteryIncreased]
            } else {
                Seq::<Event>::empty()
            };
            let b = if low_entry(s, snap, low_enabled) {
                seq![Event::LowBattery]
            } else {
                Seq::<Event>::empty()
            };
            let c = if charging_entry(s, snap, charging_enabled) {
                seq![Event::NowCharging]
            } else {
                Seq::<Event>::empty()
            };
            assert(step_events == a + b + c);
            lemma_count_increase_concat(a, b);
            lemma_count_increase_concat(a + b, c);
            lemma_count_increase_single(Event::BatteryIncreased);
            lemma_count_increase_single(Event::LowBattery);
            lemma_count_increase_single(Event::NowCharging);
        }
        let tail = levels.drop_first();
        assert forall|i: int| 0 <= i && i + 1 < tail.len() implies #[trigger] tail[i] <= tail[i
            + 1] by {
            assert(tail[i] == levels[i + 1]);
            assert(tail[i + 1] == levels[i + 2]);
        }
        if tail.len() > 0 {
            assert(tail[0] == levels[1]);
        }
        lemma_increase_events_nondecreasing(next, tail, low_enabled, charging_enabled);
        lemma_count_increase_concat(
            step_events,
            spec_run_levels(next, tail, low_enabled, charging_enabled).1,
        );
        if tail.len() > 0 {
            assert(levels.last() == tail.last());
        }
    }
}

/// The sticky flags move only on their own explicit edge crossings: a poll
/// that fires neither the entry nor the exit edge of a flag leaves that flag
/// exactly as it was, whatever else the snapshot holds.
pub proof fn lemma_flags_move_only_on_edges(
    s: TrackerState,
    snap: Snapshot,
    low_enabled: bool,
    charging_enabled: bool,
)
    ensures
        spec_next_state(s, snap, low_enabled, charging_enabled).is_low_battery
            != s.is_low_battery ==> low_entry(s, snap, low_enabled) || low_exit(
            s,
            snap,
            low_enabled,
        ),
        spec_next_state(s, snap, low_enabled, charging_enabled).is_charging != s.is_charging
            ==> charging_entry(s, snap, charging_enabled) || charging_exit(
            s,
            snap,
            charging_enabled,
        ),
{
}

/// While the low-battery notification class is disabled, a poll never emits a
/// low-battery event and never moves the `is_low_battery` flag: a crossing
/// seen while the class is off cannot make a later re-enable misfire.
pub proof fn lemma_low_class_disabled_is_inert(
    s: TrackerState,
    snap: Snapshot,
    charging_enabled: bool,
)
    ensures
        spec_next_state(s, snap, false, charging_enabled).is_low_battery == s.is_low_battery,
        !spec_events(s, snap, false, charging_enabled).contains(Event::LowBattery),
{
    let es = spec_events(s, snap, false, charging_enabled);
    assert forall|k: int| 0 <= k < es.len() implies es[k] != Event::LowBattery by {
        if level_increased(s, snap) {
            if charging_entry(s, snap, charging_enabled) {
                assert(es =~= seq![Event::BatteryIncreased, Event::NowCharging]);
            } else {
                assert(es =~= seq![Event::BatteryIncreased]);
            }
        } else {
            if charging_entry(s, snap, charging_enabled) {
                assert(es =~= seq![Event::NowCharging]);
            } else {
                assert(es =~= Seq::<Event>::empty());
            }
        }
    }
}

/// While the charging notification class is disabled, a poll never emits a
/// charging event and never moves the `is_charging` flag.
pub proof fn lemma_charging_class_disabled_is_inert(
    s: TrackerState,
    snap: Snapshot,
    low_enabled: bool,
)
    ensures
        spec_next_state(s, snap, low_enabled, false).is_charging == s.is_charging,
        !spec_events(s, snap, low_enabled, false).contains(Event::NowCharging),
{
    let es = spec_events(s, snap, low_enabled, false);
    assert forall|k: int| 0 <= k < es.len() implies es[k] != Event::NowCharging by {
        if level_increased(s, snap) {
            if low_entry(s, snap, low_enabled) {
                assert(es =~= seq![Event::BatteryIncreased, Event::LowBattery]);
            } else {
                assert(es =~= seq![Event::BatteryIncreased]);
            }
        } else {
            if low_entry(s, snap, low_enabled) {
                assert(es =~= seq![Event::LowBattery]);
            } else {
                assert(es =~= Seq::<Event>::empty());
            }
        }
    }
}

} // verus!
