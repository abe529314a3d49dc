//! The tank's emergency-shutdown interlock.

use vstd::prelude::*;
use crate::alarm::{AlarmLevel, alarm_level};
use crate::psv::Psv;
use crate::valve::{Valve, valve_status_text};

verus! {

/// The shutdown state of a tank: its control valve's solenoid and its
/// pressure safety valve.
pub struct Tank {
    pub valve: Valve,
    pub psv: Psv,
}

/// The state of a tank that has just been set up: solenoid open, PSV closed.
pub open spec fn initial_tank() -> Tank {
    Tank { valve: Valve { solenoid_open: true }, psv: Psv { open: false } }
}

/// The tanks reached from a new one by one control update per alarm level
/// of `levels`, in order.
pub open spec fn run(levels: Seq<AlarmLevel>) -> Tank
    decreases levels.len(),
{
    if levels.len() == 0 {
        initial_tank()
    } else {
        run(levels.drop_last()).after_update(levels.last())
    }
}

impl Tank {
    /// The interlock: the solenoid is open exactly when the PSV is closed.
    pub open spec fn interlocked(self) -> bool {
        self.valve.solenoid_open == !self.psv.open
    }

    /// The tank after a control update under alarm level `level`: an
    /// emergency closes the solenoid and opens the PSV, any other level opens
    /// the solenoid and closes the PSV.
    pub open spec fn after_update(self, level: AlarmLevel) -> Tank {
        let emergency = level == AlarmLevel::Emergency;
        Tank { valve: Valve { solenoid_open: !emergency }, psv: Psv { open: emergency } }
    }

    /// A new tank: solenoid open, PSV closed.
    pub fn new() -> (t: Tank)
        ensures
            t == initial_tank(),
    {
        Tank { valve: Valve::new(), psv: Psv::new() }
    }

    /// One control update: trips the emergency shutdown when the pressure
    /// alarm is at its emergency level, and lifts it otherwise.
    pub fn update(&mut self, alarm: AlarmLevel)
        ensures
            *final(self) == old(self).after_update(alarm),
    {
        let emergency = alarm.is_emergency();
        self.valve.solenoid_open = !emergency;
        self.psv.open = emergency;
    }
}

/// Every tank reached from a new one by control updates keeps the
/// interlock: its solenoid is open exactly when its PSV is closed.
pub proof fn lemma_reachable_tanks_interlocked(levels: Seq<AlarmLevel>)
    ensures
        run(levels).interlocked(),
    decreases levels.len(),
{
    if levels.len() > 0 {
        lemma_reachable_tanks_interlocked(levels.drop_last());
    }
}

/// A control update leaves a tank in a state that depends on the alarm level
/// alone, not on the state before: a shutdown is lifted as soon as the
/// pressure falls below the emergency limit.
pub proof fn lemma_update_forgets_history(a: Tank, b: Tank, level: AlarmLevel)
    ensures
        a.after_update(level) == b.after_update(level),
{
}

/// After a control update, the solenoid is closed, and the PSV is open,
/// exactly when the pressure has reached the emergency limit (PAHH),
/// whatever the warning limit says.
pub proof fn lemma_shutdown_exactly_at_pahh(t: Tank, reached_pah: bool, reached_pahh: bool)
    ensures
        !t.after_update(alarm_level(reached_pah, reached_pahh)).valve.solenoid_open
            <==> reached_pahh,
        t.after_update(alarm_level(reached_pah, reached_pahh)).psv.open <==> reached_pahh,
{
}

/// After a control update, the valve reports "CLOSED (Emergency)" exactly
/// when the pressure has reached the emergency limit, whatever its opening.
pub proof fn lemma_valve_reports_shutdown(
    t: Tank,
    reached_pah: bool,
    reached_pahh: bool,
    above_open_large: bool,
    above_stable: bool,
)
    ensures
        valve_status_text(
            t.after_update(alarm_level(reached_pah, reached_pahh)).valve.solenoid_open,
            above_open_large,
            above_stable,
        ) == "CLOSED (Emergency)"@ <==> reached_pahh,
{
    reveal_strlit("CLOSED (Emergency)");
    reveal_strlit("OPEN LARGE");
    reveal_strlit("STABLE");
    reveal_strlit("CLOSING");
    let s = valve_status_text(
        t.after_update(alarm_level(reached_pah, reached_pahh)).valve.solenoid_open,
        above_open_large,
        above_stable,
    );
    if !reached_pahh {
        assert(s.len() != "CLOSED (Emergency)"@.len());
    }
}

} // verus!
