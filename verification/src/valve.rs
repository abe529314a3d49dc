//! The control valve and its solenoid.

use vstd::prelude::*;

verus! {

/// The control valve's solenoid. A closed solenoid shuts the valve off
/// whatever its opening; the opening itself is a measured quantity that the
/// caller keeps.
pub struct Valve {
    pub solenoid_open: bool,
}

/// The status text of the valve, given whether its solenoid is open, whether
/// its opening is above the "open large" threshold and whether it is above
/// the "stable" threshold. A closed solenoid decides first.
pub open spec fn valve_status_text(
    solenoid_open: bool,
    above_open_large: bool,
    above_stable: bool,
) -> Seq<char> {
    if !solenoid_open {
        "CLOSED (Emergency)"@
    } else if above_open_large {
        "OPEN LARGE"@
    } else if above_stable {
        "STABLE"@
    } else {
        "CLOSING"@
    }
}

impl Valve {
    /// A valve starts with its solenoid open.
    pub fn new() -> (v: Valve)
        ensures
            v.solenoid_open,
    {
        Valve { solenoid_open: true }
    }

    /// The valve's status text. `above_open_large` tells whether the opening
    /// is above 70 %, `above_stable` whether it is above 30 %.
    pub fn status(&self, above_open_large: bool, above_stable: bool) -> (s: &'static str)
        ensures
            s@ == valve_status_text(self.solenoid_open, above_open_large, above_stable),
    {
        if !self.solenoid_open {
            "CLOSED (Emergency)"
        } else if above_open_large {
            "OPEN LARGE"
        } else if above_stable {
            "STABLE"
        } else {
            "CLOSING"
        }
    }
}

} // verus!
