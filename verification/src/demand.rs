//! Electricity demand: an integer random walk, floor-clamped at zero.

use vstd::prelude::*;

use crate::arith::clamp_min_zero;
use crate::arith::sat_add;
use crate::arith::sat_add_i32;

verus! {

/// The current electricity demand.
pub struct ElectricityDemand {
    /// Demand level, kept nonnegative.
    pub demand: i32,
}

/// Mathematical image of `ElectricityDemand`.
pub ghost struct DemandModel {
    pub demand: int,
}

impl View for ElectricityDemand {
    type V = DemandModel;

    open spec fn view(&self) -> DemandModel {
        DemandModel { demand: self.demand as int }
    }
}

/// One demand update: the draw `delta` is added to the demand and the result
/// is clamped to a minimum of zero.
pub open spec fn demand_step(d: DemandModel, delta: int) -> DemandModel {
    DemandModel { demand: clamp_min_zero(sat_add(d.demand, delta)) }
}

impl ElectricityDemand {
    /// Apply one perturbation `delta` to the demand, clamping at zero.
    pub fn update(&mut self, delta: i32)
        ensures
            final(self)@ == demand_step(old(self)@, delta as int),
    {
        let raised = sat_add_i32(self.demand, delta);
        self.demand = if raised < 0 {
            0
        } else {
            raised
        };
    }
}

} // verus!
