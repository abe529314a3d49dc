//! The temperature controller's burner decision.

use vstd::prelude::*;

verus! {

/// What the burner does.
#[derive(PartialEq, Eq, Structural, Clone, Copy, Debug)]
pub enum BurnerMode {
    /// Heating: the temperature is below the dead band round the setpoint.
    On,
    /// Off: the temperature is above the dead band.
    Off,
    /// Idle: the temperature is inside the dead band.
    Idle,
}

/// The burner mode, given whether the temperature lies below the dead band
/// (`too_cold`) and whether it lies above it (`too_hot`). Being below the
/// band decides first.
pub open spec fn burner_mode(too_cold: bool, too_hot: bool) -> BurnerMode {
    if too_cold {
        BurnerMode::On
    } else if too_hot {
        BurnerMode::Off
    } else {
        BurnerMode::Idle
    }
}

/// The text that the dashboard shows for a burner mode.
pub open spec fn burner_label(mode: BurnerMode) -> Seq<char> {
    match mode {
        BurnerMode::On => "BURNER: ON  🔥"@,
        BurnerMode::Off => "BURNER: OFF"@,
        BurnerMode::Idle => "BURNER: IDLE 〰"@,
    }
}

/// Decides the burner mode. `too_cold` tells whether the temperature is
/// below the setpoint less the dead band, `too_hot` whether it is above the
/// setpoint plus the dead band.
pub fn burner(too_cold: bool, too_hot: bool) -> (mode: BurnerMode)
    ensures
        mode == burner_mode(too_cold, too_hot),
        (mode == BurnerMode::On) <==> too_cold,
        (mode == BurnerMode::Off) <==> (!too_cold && too_hot),
        (mode == BurnerMode::Idle) <==> (!too_cold && !too_hot),
{
    if too_cold {
        BurnerMode::On
    } else if too_hot {
        BurnerMode::Off
    } else {
        BurnerMode::Idle
    }
}

impl BurnerMode {
    /// The dashboard's text for this mode.
    pub fn label(&self) -> (s: &'static str)
        ensures
            s@ == burner_label(*self),
    {
        match self {
            BurnerMode::On => "BURNER: ON  🔥",
            BurnerMode::Off => "BURNER: OFF",
            BurnerMode::Idle => "BURNER: IDLE 〰",
        }
    }
}

} // verus!
