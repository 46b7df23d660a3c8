use vstd::prelude::*;

use crate::error::ParseError;
use crate::quantity::{Decimal, Energy, Power};
use crate::temporal::Timestamp;
use crate::text::str_equals;
use crate::time_unit::TimeUnit;

verus! {

/// An energy sample as the service sends it: a timestamp and, if there was a measurement,
/// its number in the series' declared unit.
#[derive(Debug, Clone, Copy, PartialEq, Eq, Structural)]
pub struct RawGeneratedEnergyValue {
    pub date: Timestamp,
    pub value: Option<Decimal>,
}

/// A timestamped energy; `None` where nothing was measured at that timestamp.
#[derive(Debug, Clone, Copy, PartialEq, Eq, Structural)]
pub struct GeneratedEnergyValue {
    pub date: Timestamp,
    pub value: Option<Energy>,
}

/// The energy produced per time unit, in the order the service sent it.
#[derive(Debug, Clone)]
pub struct GeneratedEnergy {
    pub time_unit: TimeUnit,
    /// the unit the values are given in; only `Wh` is supported
    pub unit: String,
    pub values: Vec<RawGeneratedEnergyValue>,
}

/// A power sample as the service sends it.
#[derive(Debug, Clone, Copy, PartialEq, Eq, Structural)]
pub struct RawGeneratedPowerValue {
    pub date: Timestamp,
    pub value: Option<Decimal>,
}

/// A timestamped power; `None` where nothing was measured at that timestamp.
#[derive(Debug, Clone, Copy, PartialEq, Eq, Structural)]
pub struct GeneratedPowerValue {
    pub date: Timestamp,
    pub value: Option<Power>,
}

/// The power measured per time unit, in the order the service sent it.
#[derive(Debug, Clone)]
pub struct GeneratedPowerPerTimeUnit {
    pub time_unit: TimeUnit,
    /// the unit the values are given in; only `W` is supported
    pub unit: String,
    pub values: Vec<RawGeneratedPowerValue>,
}

/// A raw energy sample read in watt-hours.
pub open spec fn energy_sample(raw: RawGeneratedEnergyValue) -> GeneratedEnergyValue {
    GeneratedEnergyValue {
        date: raw.date,
        value: match raw.value {
            Some(d) => Some(Energy { watt_hours: d }),
            None => None,
        },
    }
}

/// A raw power sample read in watts.
pub open spec fn power_sample(raw: RawGeneratedPowerValue) -> GeneratedPowerValue {
    GeneratedPowerValue {
        date: raw.date,
        value: match raw.value {
            Some(d) => Some(Power { watts: d }),
            None => None,
        },
    }
}

impl RawGeneratedEnergyValue {
    /// Gives the sample its unit; `Wh` is the only one supported.
    pub fn convert(&self, unit: &str) -> (r: Result<GeneratedEnergyValue, ParseError>)
        ensures
            r == if unit@ == "Wh"@ {
                Ok::<GeneratedEnergyValue, ParseError>(energy_sample(*self))
            } else {
                Err(ParseError::UnsupportedUnit)
            },
    {
        if !str_equals(unit, "Wh") {
            return Err(ParseError::UnsupportedUnit);
        }
        let value = match self.value {
            Some(d) => Some(Energy::from_watt_hours(d)),
            None => None,
        };
        Ok(GeneratedEnergyValue { date: self.date, value })
    }
}

impl RawGeneratedPowerValue {
    /// Gives the sample its unit; `W` is the only one supported.
    pub fn convert(&self, unit: &str) -> (r: Result<GeneratedPowerValue, ParseError>)
        ensures
            r == if unit@ == "W"@ {
                Ok::<GeneratedPowerValue, ParseError>(power_sample(*self))
            } else {
                Err(ParseError::UnsupportedUnit)
            },
    {
        if !str_equals(unit, "W") {
            return Err(ParseError::UnsupportedUnit);
        }
        let value = match self.value {
            Some(d) => Some(Power::from_watts(d)),
            None => None,
        };
        Ok(GeneratedPowerValue { date: self.date, value })
    }
}

impl GeneratedEnergy {
    /// The timestamped energies, one for each sample and in the same order; fails where the
    /// series declares a unit other than `Wh`.
    pub fn values(&self) -> (r: Result<Vec<GeneratedEnergyValue>, ParseError>)
        ensures
            self.unit@ == "Wh"@ ==> (r matches Ok(v) && v@ == self.values@.map_values(
                |raw: RawGeneratedEnergyValue| energy_sample(raw),
            )),
            self.unit@ != "Wh"@ ==> r == Err::<Vec<GeneratedEnergyValue>, ParseError>(
                ParseError::UnsupportedUnit,
            ),
    {
        if !str_equals(self.unit.as_str(), "Wh") {
            return Err(ParseError::UnsupportedUnit);
        }
        let mut out: Vec<GeneratedEnergyValue> = Vec::new();
        let mut i: usize = 0;
        while i < self.values.len()
            invariant
                self.unit@ == "Wh"@,
                0 <= i <= self.values@.len(),
                out@ == self.values@.subrange(0, i as int).map_values(
                    |raw: RawGeneratedEnergyValue| energy_sample(raw),
                ),
            decreases self.values@.len() - i,
        {
            let converted = self.values[i].convert(self.unit.as_str())?;
            out.push(converted);
            proof {
                assert(self.values@.subrange(0, i + 1) =~= self.values@.subrange(0, i as int).push(
                    self.values@[i as int],
                ));
            }
            i = i + 1;
        }
        assert(self.values@.subrange(0, i as int) =~= self.values@);
        Ok(out)
    }
}

impl GeneratedPowerPerTimeUnit {
    /// The timestamped powers, one for each sample and in the same order; fails where the
    /// series declares a unit other than `W`.
    pub fn values(&self) -> (r: Result<Vec<GeneratedPowerValue>, ParseError>)
        ensures
            self.unit@ == "W"@ ==> (r matches Ok(v) && v@ == self.values@.map_values(
                |raw: RawGeneratedPowerValue| power_sample(raw),
            )),
            self.unit@ != "W"@ ==> r == Err::<Vec<GeneratedPowerValue>, ParseError>(
                ParseError::UnsupportedUnit,
            ),
    {
        if !str_equals(self.unit.as_str(), "W") {
            return Err(ParseError::UnsupportedUnit);
        }
        let mut out: Vec<GeneratedPowerValue> = Vec::new();
        let mut i: usize = 0;
        while i < self.values.len()
            invariant
                self.unit@ == "W"@,
                0 <= i <= self.values@.len(),
                out@ == self.values@.subrange(0, i as int).map_values(
                    |raw: RawGeneratedPowerValue| power_sample(raw),
                ),
            decreases self.values@.len() - i,
        {
            let converted = self.values[i].convert(self.unit.as_str())?;
            out.push(converted);
            proof {
                assert(self.values@.subrange(0, i + 1) =~= self.values@.subrange(0, i as int).push(
                    self.values@[i as int],
                ));
            }
            i = i + 1;
        }
        assert(self.values@.subrange(0, i as int) =~= self.values@);
        Ok(out)
    }
}

} // verus!
