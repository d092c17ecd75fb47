//! Device matching: is a discovered device one the user wants monitored?

use vstd::prelude::*;

verus! {

/// A device's identity, read once per device per rescan and used only for
/// matching against the configured allow-list.
pub struct DeviceIdentity {
    pub model: String,
    pub serial: String,
}

/// True iff some entry of `entries` equals `s`, as a sequence of characters.
pub open spec fn spec_contains_string(entries: Seq<String>, s: Seq<char>) -> bool {
    exists|i: int| 0 <= i < entries.len() && entries[i]@ == s
}

/// True iff the allow-list contains the device's model or its serial.
pub open spec fn spec_matches(entries: Seq<String>, id: DeviceIdentity) -> bool {
    spec_contains_string(entries, id.model@) || spec_contains_string(entries, id.serial@)
}

/// Exact membership test of a string in a list, character for character.
pub fn contains_string(entries: &Vec<String>, s: &String) -> (r: bool)
    ensures
        r == spec_contains_string(entries@, s@),
{
    let mut i: usize = 0;
    while i < entries.len()
        invariant
            0 <= i <= entries@.len(),
            forall|j: int| 0 <= j < i ==> entries@[j]@ != s@,
        decreases entries@.len() - i,
    {
        if entries[i].eq(s) {
            return true;
        }
        i = i + 1;
    }
    false
}

/// A device is monitored iff its model or its serial appears in the
/// configured controller set. Exact string equality; no normalization.
pub fn device_matches(controllers: &Vec<String>, id: &DeviceIdentity) -> (r: bool)
    ensures
        r == spec_matches(controllers@, *id),
{
    contains_string(controllers, &id.model) || contains_string(controllers, &id.serial)
}

} // verus!
