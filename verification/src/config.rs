//! Daemon configuration: the controller allow-list and the switches that
//! enable or disable each notification class.

use vstd::prelude::*;

verus! {

/// Configuration loaded once at process start and never reloaded.
///
/// `controllers` holds model names or serial numbers, compared by exact,
/// case-sensitive string equality. The three booleans gate which transition
/// classes produce notifications.
pub struct Config {
    pub controllers: Vec<String>,
    pub notify_connected: bool,
    pub notify_charging: bool,
    pub notify_low_battery: bool,
}

impl Default for Config {
    /// Defaults when no configuration is present: empty controller set,
    /// connected notifications on, charging notifications off, low-battery
    /// notifications on.
    fn default() -> (c: Config)
        ensures
            c.controllers@ == Seq::<String>::empty(),
            c.notify_connected,
            !c.notify_charging,
            c.notify_low_battery,
    {
        Config {
            controllers: Vec::new(),
            notify_connected: true,
            notify_charging: false,
            notify_low_battery: true,
        }
    }
}

} // verus!
