//! The simulation: configuration, the coupled state, and the driving loop.

use vstd::prelude::*;

use crate::demand::{demand_step, DemandModel, ElectricityDemand};
use crate::fuel::{fuel_step, FuelConsumption, FuelModel};
use crate::generator::{at_max, generator_step, raw_speed, GeneratorModel, GeneratorSpeed};
use crate::rng::{random_delta, MAX_DEMAND_DELTA, MIN_DEMAND_DELTA};

verus! {

/// Explicit configuration for a simulation run.
#[derive(Clone, Copy)]
pub struct Config {
    /// Number of iterations `run` executes; zero or negative means none.
    pub iterations: i32,
    /// Demand level at the start of the run.
    pub initial_demand: i32,
    /// Ceiling on the generator speed.
    pub max_speed: i32,
    /// Constant step by which the fuel consumption rate ramps up.
    pub rate_of_increase: i32,
}

impl Config {
    /// A configuration is meaningful when the quantities the data model
    /// declares nonnegative are in fact nonnegative. The iteration count may
    /// be anything: zero or negative counts simply run no iterations.
    pub open spec fn valid(self) -> bool {
        &&& self.initial_demand >= 0
        &&& self.max_speed >= 0
        &&& self.rate_of_increase >= 0
    }
}

/// The coupled simulation state: the three entities plus the iteration count.
pub struct Simulation {
    pub fuel_consumption: FuelConsumption,
    pub generator_speed: GeneratorSpeed,
    pub electricity_demand: ElectricityDemand,
    /// Number of iterations `run` executes; zero or negative means none.
    pub iterations: i32,
}

/// Mathematical image of `Simulation`.
pub ghost struct SimModel {
    pub fuel: FuelModel,
    pub generator: GeneratorModel,
    pub demand: DemandModel,
    pub iterations: int,
}

impl View for Simulation {
    type V = SimModel;

    open spec fn view(&self) -> SimModel {
        SimModel {
            fuel: self.fuel_consumption@,
            generator: self.generator_speed@,
            demand: self.electricity_demand@,
            iterations: self.iterations as int,
        }
    }
}

/// Well-formedness of a simulation state: every field is a representable
/// `i32` quantity with the sign the data model calls for, the speed sits
/// within `[0, max_speed]`, and a generator at its maximum owes that fact to
/// the current consumption rate. `Simulation::new` establishes it and every
/// update preserves it.
pub open spec fn inv(s: SimModel) -> bool {
    &&& 0 <= s.fuel.rate_of_increase <= i32::MAX as int
    &&& 0 <= s.fuel.rate_of_consumption <= i32::MAX as int
    &&& 0 <= s.fuel.consumed <= i32::MAX as int
    &&& 0 <= s.generator.max_speed <= i32::MAX as int
    &&& 0 <= s.generator.speed <= s.generator.max_speed
    &&& 0 <= s.demand.demand <= i32::MAX as int
    &&& (at_max(s.generator) ==> raw_speed(s.fuel.rate_of_consumption) >= s.generator.max_speed)
}

/// The state a fresh simulation starts in: consumption rate 1, nothing yet
/// consumed, generator at rest, demand as configured.
pub open spec fn initial_state(c: Config) -> SimModel {
    SimModel {
        fuel: FuelModel {
            rate_of_increase: c.rate_of_increase as int,
            rate_of_consumption: 1,
            consumed: 0,
        },
        generator: GeneratorModel { speed: 0, max_speed: c.max_speed as int },
        demand: DemandModel { demand: c.initial_demand as int },
        iterations: c.iterations as int,
    }
}

/// One full iteration: fuel first (reading whether the generator ended the
/// previous iteration at its maximum), then the generator (reading the just
/// updated consumption rate), then the demand walk with the draw `delta`.
pub open spec fn sim_step(s: SimModel, delta: int) -> SimModel {
    let fuel = fuel_step(s.fuel, at_max(s.generator));
    SimModel {
        fuel: fuel,
        generator: generator_step(s.generator, fuel.rate_of_consumption),
        demand: demand_step(s.demand, delta),
        iterations: s.iterations,
    }
}

/// A whole run: `sim_step` folded over the sequence of demand draws.
pub open spec fn sim_run(s: SimModel, deltas: Seq<int>) -> SimModel
    decreases deltas.len(),
{
    if deltas.len() == 0 {
        s
    } else {
        sim_run(sim_step(s, deltas[0]), deltas.drop_first())
    }
}

/// Folding one more draw onto a run is one more step.
pub proof fn lemma_sim_run_snoc(s: SimModel, deltas: Seq<int>, delta: int)
    ensures
        sim_run(s, deltas.push(delta)) == sim_step(sim_run(s, deltas), delta),
    decreases deltas.len(),
{
    reveal_with_fuel(sim_run, 2);
    if deltas.len() == 0 {
        assert(deltas.push(delta)[0] == delta);
        assert(deltas.push(delta).drop_first() =~= Seq::<int>::empty());
    } else {
        assert(deltas.push(delta)[0] == deltas[0]);
        assert(deltas.push(delta).drop_first() =~= deltas.drop_first().push(delta));
        lemma_sim_run_snoc(sim_step(s, deltas[0]), deltas.drop_first(), delta);
    }
}

/// How many iterations a run with the given `iterations` setting executes.
pub open spec fn executed_iterations(iterations: int) -> int {
    if iterations <= 0 {
        0
    } else {
        iterations
    }
}

/// The sequence of draws that a vector of `i32` draws stands for.
pub open spec fn draws(v: Seq<i32>) -> Seq<int> {
    v.map_values(|d: i32| d as int)
}

impl Simulation {
    /// A fresh simulation in the initial state for `config`.
    pub fn new(config: Config) -> (s: Simulation)
        requires
            config.valid(),
        ensures
            s@ == initial_state(config),
            inv(s@),
    {
        Simulation {
            fuel_consumption: FuelConsumption {
                rate_of_increase: config.rate_of_increase,
                rate_of_consumption: 1,
                consumed: 0,
            },
            generator_speed: GeneratorSpeed { speed: 0, max_speed: config.max_speed },
            electricity_demand: ElectricityDemand { demand: config.initial_demand },
            iterations: config.iterations,
        }
    }

    /// One iteration with an injected demand draw `delta`: fuel, then
    /// generator, then demand, in that order.
    pub fn run_iteration(&mut self, delta: i32)
        ensures
            final(self)@ == sim_step(old(self)@, delta as int),
    {
        let generator_running_at_max = self.generator_speed.is_running_at_max();
        self.fuel_consumption.update(generator_running_at_max);
        self.generator_speed.update(self.fuel_consumption.rate_of_consumption);
        self.electricity_demand.update(delta);
    }

    /// One iteration with the demand draw taken from the ambient random
    /// number generator; returns the draw.
    pub fn run_iteration_random(&mut self) -> (delta: i32)
        ensures
            MIN_DEMAND_DELTA <= delta <= MAX_DEMAND_DELTA,
            final(self)@ == sim_step(old(self)@, delta as int),
    {
        let delta = random_delta();
        self.run_iteration(delta);
        delta
    }

    /// A whole run with an injected sequence of demand draws, one per
    /// executed iteration: the deterministic core of `run`.
    pub fn run_with(&mut self, deltas: &Vec<i32>)
        requires
            deltas@.len() == executed_iterations(old(self)@.iterations),
        ensures
            final(self)@ == sim_run(old(self)@, draws(deltas@)),
    {
        let mut i: usize = 0;
        while i < deltas.len()
            invariant
                0 <= i <= deltas@.len(),
                self@ == sim_run(old(self)@, draws(deltas@).take(i as int)),
            decreases deltas@.len() - i,
        {
            proof {
                lemma_sim_run_snoc(old(self)@, draws(deltas@).take(i as int), deltas@[i as int] as int);
                assert(draws(deltas@).take(i as int).push(deltas@[i as int] as int)
                    =~= draws(deltas@).take(i as int + 1));
            }
            self.run_iteration(deltas[i]);
            i = i + 1;
        }
        proof {
            assert(draws(deltas@).take(deltas@.len() as int) =~= draws(deltas@));
        }
    }

    /// A whole run with draws from the ambient random number generator. Some
    /// sequence of draws, one per executed iteration and each within the
    /// demand walk's bounds, took the state from the old value to the new
    /// one; well-formedness is preserved along the way.
    pub fn run(&mut self)
        ensures
            inv(old(self)@) ==> inv(final(self)@),
            exists|ds: Seq<int>|
                {
                    &&& #[trigger] sim_run(old(self)@, ds) == final(self)@
                    &&& ds.len() == executed_iterations(old(self)@.iterations)
                    &&& forall|j: int|
                        0 <= j < ds.len() ==> MIN_DEMAND_DELTA <= #[trigger] ds[j] <= MAX_DEMAND_DELTA
                },
    {
        let n: i32 = if self.iterations <= 0 {
            0
        } else {
            self.iterations
        };
        let ghost mut ds: Seq<int> = Seq::empty();
        let mut i: i32 = 0;
        while i < n
            invariant
                0 <= i <= n,
                n as int == executed_iterations(old(self)@.iterations),
                ds.len() == i as int,
                forall|j: int|
                    0 <= j < ds.len() ==> MIN_DEMAND_DELTA <= #[trigger] ds[j] <= MAX_DEMAND_DELTA,
                sim_run(old(self)@, ds) == self@,
            decreases n - i,
        {
            let ghost before = ds;
            let delta = self.run_iteration_random();
            proof {
                lemma_sim_run_snoc(old(self)@, before, delta as int);
                ds = before.push(delta as int);
            }
            i = i + 1;
        }
        proof {
            if inv(old(self)@) {
                crate::laws::lemma_run_preserves_inv(old(self)@, ds);
            }
        }
    }
}

} // verus!
