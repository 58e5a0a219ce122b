//! Device location: scanning the host's enumerated input devices, in
//! enumeration order, for the first whose reported name contains a target
//! fragment.

use vstd::prelude::*;
use crate::text::{contains_seq, contains_substr};

verus! {

/// One enumerated input device: its path-like identifier, and the name it
/// reported. A device that failed to open, or that reported no name, carries
/// `None` and can never match.
pub struct DeviceEntry {
    pub path: String,
    pub name: Option<String>,
}

/// The entry reported a name that contains the target fragment.
pub open spec fn entry_matches(e: DeviceEntry, target: Seq<char>) -> bool {
    match e.name {
        Some(n) => contains_seq(n@, target),
        None => false,
    }
}

/// The name fragment that identifies the device to listen on.
pub fn target_device_name() -> (r: &'static str)
    ensures
        r@ == "Corne Keyboard"@,
{
    "Corne Keyboard"
}

/// Finds the first device, in enumeration order, whose name contains
/// `target`, and returns its identifier; devices that failed to open or lack
/// a readable name are skipped. Returns `None` when no device matches, which
/// is a normal outcome, not a fault.
pub fn locate(devices: &Vec<DeviceEntry>, target: &str) -> (r: Option<String>)
    ensures
        match r {
            Some(p) => exists|i: int|
                {
                    &&& 0 <= i < devices@.len()
                    &&& #[trigger] entry_matches(devices@[i], target@)
                    &&& p@ == devices@[i].path@
                    &&& forall|j: int| 0 <= j < i ==> !entry_matches(devices@[j], target@)
                },
            None => forall|i: int|
                0 <= i < devices@.len() ==> !entry_matches(devices@[i], target@),
        },
{
    let n = devices.len();
    let mut idx: usize = 0;
    while idx < n
        invariant
            n == devices@.len(),
            0 <= idx <= n,
            forall|j: int| 0 <= j < idx ==> !entry_matches(devices@[j], target@),
        decreases n - idx,
    {
        let entry = &devices[idx];
        match &entry.name {
            Some(name) => {
                if contains_substr(name.as_str(), target) {
                    proof {
                        assert(entry_matches(devices@[idx as int], target@));
                    }
                    return Some(entry.path.clone());
                }
            },
            None => {},
        }
        idx += 1;
    }
    None
}

} // verus!
