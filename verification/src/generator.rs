//! Generator speed: recomputed each iteration from the fuel consumption rate.

use vstd::prelude::*;

verus! {

/// The generator and its speed ceiling.
pub struct GeneratorSpeed {
    /// Current speed, kept within `[0, max_speed]` while the consumption
    /// rate stays nonnegative.
    pub speed: i32,
    /// Constant ceiling on the speed.
    pub max_speed: i32,
}

/// Mathematical image of `GeneratorSpeed`.
pub ghost struct GeneratorModel {
    pub speed: int,
    pub max_speed: int,
}

impl View for GeneratorSpeed {
    type V = GeneratorModel;

    open spec fn view(&self) -> GeneratorModel {
        GeneratorModel {
            speed: self.speed as int,
            max_speed: self.max_speed as int,
        }
    }
}

/// The speed the generator aims for at a given fuel consumption rate:
/// 500 speed units per rate unit, clamped to the `i32` range.
pub open spec fn raw_speed(rate: int) -> int {
    if rate * 500 > i32::MAX as int {
        i32::MAX as int
    } else if rate * 500 < i32::MIN as int {
        i32::MIN as int
    } else {
        rate * 500
    }
}

/// One generator update: the previous speed is discarded and replaced by the
/// raw speed for the given consumption rate, capped at `max_speed`.
pub open spec fn generator_step(g: GeneratorModel, fuel_consumption_rate: int) -> GeneratorModel {
    let raw = raw_speed(fuel_consumption_rate);
    GeneratorModel {
        speed: if raw < g.max_speed {
            raw
        } else {
            g.max_speed
        },
        max_speed: g.max_speed,
    }
}

/// True when the generator speed has reached its configured ceiling.
pub open spec fn at_max(g: GeneratorModel) -> bool {
    g.speed >= g.max_speed
}

impl GeneratorSpeed {
    /// Recompute the speed from the current fuel consumption rate.
    pub fn update(&mut self, fuel_consumption_rate: i32)
        ensures
            final(self)@ == generator_step(old(self)@, fuel_consumption_rate as int),
    {
        let raw = match fuel_consumption_rate.checked_mul(500) {
            Some(v) => v,
            None => {
                if fuel_consumption_rate > 0 {
                    i32::MAX
                } else {
                    i32::MIN
                }
            },
        };
        self.speed = if raw < self.max_speed {
            raw
        } else {
            self.max_speed
        };
    }

    /// Whether the speed has reached its ceiling; the next iteration's fuel
    /// update reads this to decide whether the consumption rate keeps rising.
    pub fn is_running_at_max(&self) -> (r: bool)
        ensures
            r == at_max(self@),
    {
        self.speed >= self.max_speed
    }
}

} // verus!
