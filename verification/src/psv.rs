//! The pressure safety valve (PSV).

use vstd::prelude::*;

verus! {

/// A pressure safety valve: it vents the tank while `open`.
pub struct Psv {
    pub open: bool,
}

/// The status line that a PSV shows.
pub open spec fn psv_status_text(open: bool) -> Seq<char> {
    if open {
        "PSV: OPEN (Venting)"@
    } else {
        "PSV: Closed"@
    }
}

impl Psv {
    /// A PSV starts closed.
    pub fn new() -> (p: Psv)
        ensures
            !p.open,
    {
        Psv { open: false }
    }

    /// The status line of the valve: venting when open, closed otherwise.
    pub fn status(&self) -> (s: &'static str)
        ensures
            s@ == psv_status_text(self.open),
    {
        if self.open {
            "PSV: OPEN (Venting)"
        } else {
            "PSV: Closed"
        }
    }
}

} // verus!
