//! Fuel consumption: a ramping per-iteration rate and a cumulative total.

use vstd::prelude::*;

use crate::arith::sat_add;
use crate::arith::sat_add_i32;

verus! {

/// How much fuel the generator burns.
pub struct FuelConsumption {
    /// Constant step by which the consumption rate ramps up.
    pub rate_of_increase: i32,
    /// Units of fuel consumed per iteration.
    pub rate_of_consumption: i32,
    /// Cumulative total of fuel consumed so far.
    pub consumed: i32,
}

/// Mathematical image of `FuelConsumption`.
pub ghost struct FuelModel {
    pub rate_of_increase: int,
    pub rate_of_consumption: int,
    pub consumed: int,
}

impl View for FuelConsumption {
    type V = FuelModel;

    open spec fn view(&self) -> FuelModel {
        FuelModel {
            rate_of_increase: self.rate_of_increase as int,
            rate_of_consumption: self.rate_of_consumption as int,
            consumed: self.consumed as int,
        }
    }
}

/// One fuel update: the rate ramps up by `rate_of_increase` unless the
/// generator already runs at its maximum speed, and the (possibly just
/// raised) rate is then added to the cumulative total.
pub open spec fn fuel_step(f: FuelModel, generator_running_at_max: bool) -> FuelModel {
    let rate = if !generator_running_at_max {
        sat_add(f.rate_of_consumption, f.rate_of_increase)
    } else {
        f.rate_of_consumption
    };
    FuelModel {
        rate_of_increase: f.rate_of_increase,
        rate_of_consumption: rate,
        consumed: sat_add(f.consumed, rate),
    }
}

impl FuelConsumption {
    /// Ramp the consumption rate, unless the generator is already at its
    /// maximum speed, and add the rate to the cumulative total.
    pub fn update(&mut self, generator_running_at_max: bool)
        ensures
            final(self)@ == fuel_step(old(self)@, generator_running_at_max),
    {
        if !generator_running_at_max {
            self.rate_of_consumption = sat_add_i32(self.rate_of_consumption, self.rate_of_increase);
        }
        self.consumed = sat_add_i32(self.consumed, self.rate_of_consumption);
    }
}

} // verus!
