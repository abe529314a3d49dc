//! Safety and status logic of a pressurized-tank control station.
//!
//! The station compares gauge and transmitter readings, drives a control
//! valve, raises pressure alarms and trips an emergency shutdown. This crate
//! holds the discrete part of that logic: which alarm level a pressure
//! reading falls into, what the burner and the valve report, which reading a
//! sensor falls back on, and the shutdown interlock between the valve's
//! solenoid and the pressure safety valve. Measured quantities and their
//! arithmetic stay with the caller, which hands this crate the outcome of
//! each threshold comparison.

pub mod alarm;
pub mod controller;
pub mod psv;
pub mod sensor;
pub mod tank;
pub mod valve;
