use tank_control::alarm::AlarmLevel;
use tank_control::controller::{burner, BurnerMode};
use tank_control::psv::Psv;
use tank_control::sensor::ValueSource;
use tank_control::tank::Tank;
use tank_control::valve::Valve;

#[test]
fn psv_starts_closed() {
    let p = Psv::new();
    assert!(!p.open);
    assert_eq!(p.status(), "PSV: Closed");
}

#[test]
fn psv_status_when_venting() {
    let p = Psv { open: true };
    assert_eq!(p.status(), "PSV: OPEN (Venting)");
}

#[test]
fn alarm_levels_from_limits() {
    assert_eq!(AlarmLevel::check(false, false), AlarmLevel::Normal);
    assert_eq!(AlarmLevel::check(true, false), AlarmLevel::Warning);
    assert_eq!(AlarmLevel::check(true, true), AlarmLevel::Emergency);
    // The emergency limit decides even where the warning limit lies above it.
    assert_eq!(AlarmLevel::check(false, true), AlarmLevel::Emergency);
}

#[test]
fn alarm_labels() {
    assert_eq!(AlarmLevel::Normal.label(), "🟢 NORMAL");
    assert_eq!(AlarmLevel::Warning.label(), "🟡 PAH  - WARNING");
    assert_eq!(AlarmLevel::Emergency.label(), "🔴 PAHH - EMERGENCY!");
    assert!(AlarmLevel::Emergency.label().contains("EMERGENCY"));
    assert!(!AlarmLevel::Warning.label().contains("EMERGENCY"));
}

#[test]
fn only_emergency_is_emergency() {
    assert!(AlarmLevel::Emergency.is_emergency());
    assert!(!AlarmLevel::Warning.is_emergency());
    assert!(!AlarmLevel::Normal.is_emergency());
}

#[test]
fn burner_modes() {
    assert_eq!(burner(true, false), BurnerMode::On);
    assert_eq!(burner(false, true), BurnerMode::Off);
    assert_eq!(burner(false, false), BurnerMode::Idle);
    assert_eq!(burner(true, true), BurnerMode::On);
    assert_eq!(BurnerMode::On.label(), "BURNER: ON  🔥");
    assert_eq!(BurnerMode::Off.label(), "BURNER: OFF");
    assert_eq!(BurnerMode::Idle.label(), "BURNER: IDLE 〰");
}

#[test]
fn valve_status_texts() {
    let v = Valve::new();
    assert!(v.solenoid_open);
    assert_eq!(v.status(true, true), "OPEN LARGE");
    assert_eq!(v.status(false, true), "STABLE");
    assert_eq!(v.status(false, false), "CLOSING");
    let shut = Valve { solenoid_open: false };
    assert_eq!(shut.status(true, true), "CLOSED (Emergency)");
    assert_eq!(shut.status(false, false), "CLOSED (Emergency)");
}

#[test]
fn sensor_falls_back_on_gauge() {
    let ok = ValueSource::for_validity(true);
    let fault = ValueSource::for_validity(false);
    assert_eq!(ok, ValueSource::Average);
    assert_eq!(fault, ValueSource::Gauge);
    assert_eq!(ok.pick(102.0_f64, 101.0_f64), 102.0);
    assert_eq!(fault.pick(102.0_f64, 101.0_f64), 101.0);
    assert_eq!(ok.label(), "avg");
    assert_eq!(fault.label(), "PG");
}

#[test]
fn new_tank_is_running() {
    let t = Tank::new();
    assert!(t.valve.solenoid_open);
    assert!(!t.psv.open);
}

#[test]
fn emergency_trips_shutdown() {
    let mut t = Tank::new();
    t.update(AlarmLevel::check(true, true));
    assert!(!t.valve.solenoid_open);
    assert!(t.psv.open);
    assert_eq!(t.valve.status(true, true), "CLOSED (Emergency)");
    assert_eq!(t.psv.status(), "PSV: OPEN (Venting)");
}

#[test]
fn warning_keeps_running() {
    let mut t = Tank::new();
    t.update(AlarmLevel::check(true, false));
    assert!(t.valve.solenoid_open);
    assert!(!t.psv.open);
    assert_eq!(t.valve.status(false, true), "STABLE");
}

#[test]
fn shutdown_lifts_when_pressure_falls() {
    let mut t = Tank::new();
    t.update(AlarmLevel::Emergency);
    t.update(AlarmLevel::Normal);
    assert!(t.valve.solenoid_open);
    assert!(!t.psv.open);
}

#[test]
fn interlock_holds_along_a_run() {
    let mut t = Tank::new();
    let levels = [
        AlarmLevel::Normal,
        AlarmLevel::Warning,
        AlarmLevel::Emergency,
        AlarmLevel::Emergency,
        AlarmLevel::Warning,
        AlarmLevel::Normal,
    ];
    assert_eq!(t.valve.solenoid_open, !t.psv.open);
    for level in levels {
        t.update(level);
        assert_eq!(t.valve.solenoid_open, !t.psv.open);
        assert_eq!(t.psv.open, level == AlarmLevel::Emergency);
    }
}

#[test]
fn update_forgets_previous_state() {
    let mut a = Tank::new();
    let mut b = Tank { valve: Valve { solenoid_open: false }, psv: Psv { open: true } };
    a.update(AlarmLevel::Warning);
    b.update(AlarmLevel::Warning);
    assert_eq!(a.valve.solenoid_open, b.valve.solenoid_open);
    assert_eq!(a.psv.open, b.psv.open);
}
