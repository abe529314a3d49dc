//! Pressure alarms: a warning limit (PAH) and an emergency limit (PAHH).

use vstd::prelude::*;

verus! {

/// How far the tank pressure has gone towards its limits.
#[derive(PartialEq, Eq, Structural, Clone, Copy, Debug)]
pub enum AlarmLevel {
    /// Below the warning limit.
    Normal,
    /// At or above the warning limit (PAH), below the emergency limit.
    Warning,
    /// At or above the emergency limit (PAHH).
    Emergency,
}

/// The level that a pressure reading falls into, given whether it has
/// reached the warning limit and whether it has reached the emergency limit.
/// The emergency limit decides first, whatever the warning limit says.
pub open spec fn alarm_level(reached_pah: bool, reached_pahh: bool) -> AlarmLevel {
    if reached_pahh {
        AlarmLevel::Emergency
    } else if reached_pah {
        AlarmLevel::Warning
    } else {
        AlarmLevel::Normal
    }
}

/// The text that the alarm panel shows for a level.
pub open spec fn alarm_label(level: AlarmLevel) -> Seq<char> {
    match level {
        AlarmLevel::Emergency => "🔴 PAHH - EMERGENCY!"@,
        AlarmLevel::Warning => "🟡 PAH  - WARNING"@,
        AlarmLevel::Normal => "🟢 NORMAL"@,
    }
}

impl AlarmLevel {
    /// Classifies a pressure reading. `reached_pah` tells whether the
    /// pressure is at or above the warning limit, `reached_pahh` whether it
    /// is at or above the emergency limit.
    pub fn check(reached_pah: bool, reached_pahh: bool) -> (level: AlarmLevel)
        ensures
            level == alarm_level(reached_pah, reached_pahh),
            (level == AlarmLevel::Emergency) <==> reached_pahh,
            (level == AlarmLevel::Warning) <==> (reached_pah && !reached_pahh),
            (level == AlarmLevel::Normal) <==> (!reached_pah && !reached_pahh),
    {
        if reached_pahh {
            AlarmLevel::Emergency
        } else if reached_pah {
            AlarmLevel::Warning
        } else {
            AlarmLevel::Normal
        }
    }

    /// Whether this level calls for an emergency shutdown.
    pub fn is_emergency(&self) -> (b: bool)
        ensures
            b <==> (*self == AlarmLevel::Emergency),
    {
        match self {
            AlarmLevel::Emergency => true,
            _ => false,
        }
    }

    /// The alarm panel's text for this level.
    pub fn label(&self) -> (s: &'static str)
        ensures
            s@ == alarm_label(*self),
    {
        match self {
            AlarmLevel::Emergency => "🔴 PAHH - EMERGENCY!",
            AlarmLevel::Warning => "🟡 PAH  - WARNING",
            AlarmLevel::Normal => "🟢 NORMAL",
        }
    }
}

} // verus!
