//! Which reading a sensor reports: the calibrated average of its gauge and
//! transmitter, or its gauge alone when the two disagree.

use vstd::prelude::*;

verus! {

/// The reading a sensor reports.
#[derive(PartialEq, Eq, Structural, Clone, Copy, Debug)]
pub enum ValueSource {
    /// The average of the gauge and the transmitter.
    Average,
    /// The physical gauge alone, the fallback for a faulty transmitter.
    Gauge,
}

/// The text that marks, beside a value, which reading it comes from.
pub open spec fn source_label(source: ValueSource) -> Seq<char> {
    match source {
        ValueSource::Average => "avg"@,
        ValueSource::Gauge => "PG"@,
    }
}

impl ValueSource {
    /// The reading that a sensor reports: the average while gauge and
    /// transmitter agree (`valid`), the gauge otherwise.
    pub fn for_validity(valid: bool) -> (source: ValueSource)
        ensures
            (source == ValueSource::Average) <==> valid,
            (source == ValueSource::Gauge) <==> !valid,
    {
        if valid {
            ValueSource::Average
        } else {
            ValueSource::Gauge
        }
    }

    /// Picks, of the two candidate values, the one this source names.
    pub fn pick<T>(&self, average: T, gauge: T) -> (value: T)
        ensures
            value == (if *self == ValueSource::Average { average } else { gauge }),
    {
        match self {
            ValueSource::Average => average,
            ValueSource::Gauge => gauge,
        }
    }

    /// The text that marks which reading a value comes from.
    pub fn label(&self) -> (s: &'static str)
        ensures
            s@ == source_label(*self),
    {
        match self {
            ValueSource::Average => "avg",
            ValueSource::Gauge => "PG",
        }
    }
}

} // verus!
