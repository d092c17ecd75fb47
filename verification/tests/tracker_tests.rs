use conbatt::tracker::ChargeState;
use conbatt::tracker::Event;
use conbatt::tracker::Snapshot;
use conbatt::tracker::TrackerState;

fn snap(level: u32, charge: ChargeState) -> Snapshot {
    Snapshot { battery_level: level, charge_state: charge }
}

#[test]
fn increase_events_on_nondecreasing_sequence() {
    // Readings 3, 3, 5, 9, 9 from an initial level of 3: one increase event
    // per strict increase (3->5 and 5->9), and the last level sticks.
    let mut state = TrackerState::new(3);
    let mut increases = 0;
    for level in [3u32, 3, 5, 9, 9] {
        let (next, events) = state.poll(snap(level, ChargeState::Unknown), true, true);
        increases += events.iter().filter(|e| **e == Event::BatteryIncreased).count();
        state = next;
    }
    assert_eq!(increases, 2);
    assert_eq!(state.last_battery_level, 9);
}

#[test]
fn low_battery_is_edge_triggered() {
    // Levels 10, 4, 4, 4, 8 with the low-battery class enabled: exactly one
    // low-battery event, fired on the crossing into 4; the return to 8 clears
    // the flag silently (its only event is the unconditional level increase).
    let mut state = TrackerState::new(10);
    let mut per_step: Vec<Vec<Event>> = Vec::new();
    assert!(!state.is_low_battery);
    for level in [10u32, 4, 4, 4, 8] {
        let (next, events) = state.poll(snap(level, ChargeState::Unknown), true, false);
        per_step.push(events);
        state = next;
    }
    assert_eq!(per_step[0], vec![]);
    assert_eq!(per_step[1], vec![Event::LowBattery]);
    assert_eq!(per_step[2], vec![]);
    assert_eq!(per_step[3], vec![]);
    assert_eq!(per_step[4], vec![Event::BatteryIncreased]);
    let low_events: usize = per_step
        .iter()
        .map(|evs| evs.iter().filter(|e| **e == Event::LowBattery).count())
        .sum();
    assert_eq!(low_events, 1);
    assert!(!state.is_low_battery);
    assert_eq!(state.last_battery_level, 8);
}

#[test]
fn charging_is_edge_triggered() {
    // Charge signals discharging, charging, charging, discharging with the
    // charging class enabled: exactly one "now charging" event and a silent
    // clear on the way back.
    let mut state = TrackerState::new(50);
    let signals = [
        ChargeState::Discharging,
        ChargeState::Charging,
        ChargeState::Charging,
        ChargeState::Discharging,
    ];
    let mut per_step: Vec<Vec<Event>> = Vec::new();
    for charge in signals {
        let (next, events) = state.poll(snap(50, charge), true, true);
        per_step.push(events);
        state = next;
    }
    assert_eq!(per_step[0], vec![]);
    assert_eq!(per_step[1], vec![Event::NowCharging]);
    assert_eq!(per_step[2], vec![]);
    assert_eq!(per_step[3], vec![]);
    assert!(!state.is_charging);
}

#[test]
fn disabled_low_class_freezes_flag_and_events() {
    // A crossing below the threshold while the class is disabled emits
    // nothing and leaves the flag untouched, so a later re-enable sees the
    // crossing fresh and fires exactly then.
    let state = TrackerState::new(10);
    let (after_disabled, events) = state.poll(snap(4, ChargeState::Unknown), false, false);
    assert_eq!(events, vec![]);
    assert!(!after_disabled.is_low_battery);
    assert_eq!(after_disabled.last_battery_level, 10);

    let (after_enabled, events) = after_disabled.poll(snap(4, ChargeState::Unknown), true, false);
    assert_eq!(events, vec![Event::LowBattery]);
    assert!(after_enabled.is_low_battery);
}

#[test]
fn disabled_charging_class_freezes_flag_and_events() {
    let state = TrackerState::new(50);
    let (after_disabled, events) = state.poll(snap(50, ChargeState::Charging), true, false);
    assert_eq!(events, vec![]);
    assert!(!after_disabled.is_charging);

    let (after_enabled, events) = after_disabled.poll(snap(50, ChargeState::Charging), true, true);
    assert_eq!(events, vec![Event::NowCharging]);
    assert!(after_enabled.is_charging);
}

#[test]
fn steady_then_drop_to_low() {
    // Levels 50, 50, 3 while discharging, low-battery class enabled: nothing
    // on the unchanged reading, one low-battery event on the drop to 3.
    let mut state = TrackerState::new(50);
    let mut per_step: Vec<Vec<Event>> = Vec::new();
    for level in [50u32, 50, 3] {
        let (next, events) = state.poll(snap(level, ChargeState::Discharging), true, false);
        per_step.push(events);
        state = next;
    }
    assert_eq!(per_step[0], vec![]);
    assert_eq!(per_step[1], vec![]);
    assert_eq!(per_step[2], vec![Event::LowBattery]);
    assert_eq!(state.last_battery_level, 3);
    assert!(state.is_low_battery);
}

#[test]
fn threshold_boundaries() {
    // 5 is low, 6 is not; the clear happens exactly at 6.
    let state = TrackerState::new(10);
    let (_, events) = state.poll(snap(6, ChargeState::Unknown), true, false);
    assert_eq!(events, vec![]);
    let (low_state, events) = state.poll(snap(5, ChargeState::Unknown), true, false);
    assert_eq!(events, vec![Event::LowBattery]);
    assert!(low_state.is_low_battery);
    let (cleared, events) = low_state.poll(snap(6, ChargeState::Unknown), true, false);
    assert_eq!(events, vec![Event::BatteryIncreased]);
    assert!(!cleared.is_low_battery);
    assert_eq!(cleared.last_battery_level, 6);
}

#[test]
fn increase_and_charging_fire_together_in_order() {
    let state = TrackerState::new(40);
    let (next, events) = state.poll(snap(60, ChargeState::Charging), true, true);
    assert_eq!(events, vec![Event::BatteryIncreased, Event::NowCharging]);
    assert_eq!(next.last_battery_level, 60);
    assert!(next.is_charging);
}

#[test]
fn increase_fires_with_all_classes_disabled() {
    // The level-increase class has no configuration gate.
    let state = TrackerState::new(10);
    let (next, events) = state.poll(snap(11, ChargeState::Unknown), false, false);
    assert_eq!(events, vec![Event::BatteryIncreased]);
    assert_eq!(next.last_battery_level, 11);
}

#[test]
fn unknown_charge_signal_moves_nothing() {
    let mut state = TrackerState::new(50);
    state.is_charging = true;
    let (next, events) = state.poll(snap(50, ChargeState::Unknown), true, true);
    assert_eq!(events, vec![]);
    assert!(next.is_charging);
    assert_eq!(next.last_battery_level, 50);
}
