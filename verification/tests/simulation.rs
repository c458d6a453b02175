use pp_sim::demand::ElectricityDemand;
use pp_sim::fuel::FuelConsumption;
use pp_sim::generator::GeneratorSpeed;
use pp_sim::sim::{Config, Simulation};

fn reference_config(iterations: i32) -> Config {
    Config {
        iterations,
        initial_demand: 100,
        max_speed: 3600,
        rate_of_increase: 1,
    }
}

#[test]
fn new_simulation_starts_in_initial_state() {
    let sim = Simulation::new(reference_config(20));
    assert_eq!(sim.fuel_consumption.rate_of_increase, 1);
    assert_eq!(sim.fuel_consumption.rate_of_consumption, 1);
    assert_eq!(sim.fuel_consumption.consumed, 0);
    assert_eq!(sim.generator_speed.speed, 0);
    assert_eq!(sim.generator_speed.max_speed, 3600);
    assert_eq!(sim.electricity_demand.demand, 100);
    assert_eq!(sim.iterations, 20);
}

#[test]
fn single_iteration_scenario() {
    let mut sim = Simulation::new(reference_config(1));
    sim.run_with(&vec![0]);
    assert_eq!(sim.fuel_consumption.rate_of_consumption, 2);
    assert_eq!(sim.fuel_consumption.consumed, 2);
    assert_eq!(sim.generator_speed.speed, 1000);
    assert_eq!(sim.electricity_demand.demand, 100);
}

#[test]
fn rate_stops_rising_once_generator_at_max() {
    let mut sim = Simulation::new(Config {
        iterations: 3,
        initial_demand: 100,
        max_speed: 500,
        rate_of_increase: 1,
    });

    // First iteration: the generator was not at max, so the rate ramps to 2
    // and the speed hits the 500 ceiling.
    sim.run_iteration(0);
    assert_eq!(sim.fuel_consumption.rate_of_consumption, 2);
    assert_eq!(sim.fuel_consumption.consumed, 2);
    assert_eq!(sim.generator_speed.speed, 500);
    assert!(sim.generator_speed.is_running_at_max());

    // From the following iteration on, the rate stays constant while fuel
    // keeps being consumed at that rate.
    sim.run_iteration(0);
    assert_eq!(sim.fuel_consumption.rate_of_consumption, 2);
    assert_eq!(sim.fuel_consumption.consumed, 4);
    assert!(sim.generator_speed.is_running_at_max());

    sim.run_iteration(0);
    assert_eq!(sim.fuel_consumption.rate_of_consumption, 2);
    assert_eq!(sim.fuel_consumption.consumed, 6);
    assert!(sim.generator_speed.is_running_at_max());
}

#[test]
fn demand_clamps_at_zero_under_steady_decrease() {
    let mut sim = Simulation::new(reference_config(21));
    for i in 1..=21 {
        sim.run_iteration(-5);
        let expected = if 100 - 5 * i < 0 { 0 } else { 100 - 5 * i };
        assert_eq!(sim.electricity_demand.demand, expected);
        assert!(sim.electricity_demand.demand >= 0);
    }
    assert_eq!(sim.electricity_demand.demand, 0);
}

#[test]
fn fixed_draws_reproduce_the_output_sequence() {
    let expected_rates = vec![2, 3, 4, 5, 6];
    let expected_consumed = vec![2, 5, 9, 14, 20];
    let expected_speeds = vec![1000, 1500, 2000, 2500, 3000];

    let mut first = Simulation::new(reference_config(5));
    let mut observed = Vec::new();
    for _ in 0..5 {
        first.run_iteration(0);
        observed.push((
            first.fuel_consumption.rate_of_consumption,
            first.fuel_consumption.consumed,
            first.generator_speed.speed,
        ));
    }
    for i in 0..5 {
        assert_eq!(observed[i].0, expected_rates[i]);
        assert_eq!(observed[i].1, expected_consumed[i]);
        assert_eq!(observed[i].2, expected_speeds[i]);
    }

    // A second run over the same draws lands in exactly the same state.
    let mut second = Simulation::new(reference_config(5));
    second.run_with(&vec![0, 0, 0, 0, 0]);
    assert_eq!(
        second.fuel_consumption.rate_of_consumption,
        first.fuel_consumption.rate_of_consumption
    );
    assert_eq!(second.fuel_consumption.consumed, first.fuel_consumption.consumed);
    assert_eq!(second.generator_speed.speed, first.generator_speed.speed);
    assert_eq!(second.electricity_demand.demand, first.electricity_demand.demand);
}

#[test]
fn random_iterations_respect_the_bounds() {
    let mut sim = Simulation::new(reference_config(50));
    for _ in 0..50 {
        let delta = sim.run_iteration_random();
        assert!((-5..=5).contains(&delta));
        assert!(sim.generator_speed.speed >= 0);
        assert!(sim.generator_speed.speed <= sim.generator_speed.max_speed);
        assert!(sim.electricity_demand.demand >= 0);
    }
    // The fuel totals do not depend on the draws at all.
    assert_eq!(sim.fuel_consumption.rate_of_consumption, 8);
    assert!(sim.generator_speed.is_running_at_max());
}

#[test]
fn full_random_run_preserves_the_invariants() {
    let mut sim = Simulation::new(reference_config(20));
    sim.run();
    assert!(sim.generator_speed.speed >= 0);
    assert!(sim.generator_speed.speed <= 3600);
    assert!(sim.electricity_demand.demand >= 0);
    // 20 iterations with rate_of_increase 1: the rate ramps 2..=8 and then
    // stays at 8 (speed 4000 would exceed the 3600 ceiling).
    assert_eq!(sim.fuel_consumption.rate_of_consumption, 8);
    assert_eq!(sim.fuel_consumption.consumed, 2 + 3 + 4 + 5 + 6 + 7 + 8 * 14);
}

#[test]
fn nonpositive_iterations_run_nothing() {
    let mut negative = Simulation::new(reference_config(-3));
    negative.run();
    assert_eq!(negative.fuel_consumption.consumed, 0);
    assert_eq!(negative.fuel_consumption.rate_of_consumption, 1);
    assert_eq!(negative.generator_speed.speed, 0);
    assert_eq!(negative.electricity_demand.demand, 100);

    let mut zero = Simulation::new(reference_config(0));
    zero.run_with(&vec![]);
    assert_eq!(zero.fuel_consumption.consumed, 0);
    assert_eq!(zero.electricity_demand.demand, 100);
}

#[test]
fn fuel_total_saturates_instead_of_overflowing() {
    let mut fuel = FuelConsumption {
        rate_of_increase: 0,
        rate_of_consumption: 5,
        consumed: i32::MAX - 3,
    };
    fuel.update(false);
    assert_eq!(fuel.rate_of_consumption, 5);
    assert_eq!(fuel.consumed, i32::MAX);
}

#[test]
fn fuel_rate_saturates_instead_of_overflowing() {
    let mut fuel = FuelConsumption {
        rate_of_increase: i32::MAX,
        rate_of_consumption: 2,
        consumed: 0,
    };
    fuel.update(false);
    assert_eq!(fuel.rate_of_consumption, i32::MAX);
    assert_eq!(fuel.consumed, i32::MAX);
}

#[test]
fn fuel_rate_holds_while_generator_at_max() {
    let mut fuel = FuelConsumption {
        rate_of_increase: 3,
        rate_of_consumption: 7,
        consumed: 10,
    };
    fuel.update(true);
    assert_eq!(fuel.rate_of_consumption, 7);
    assert_eq!(fuel.consumed, 17);
}

#[test]
fn generator_speed_is_capped_at_max_speed() {
    let mut generator = GeneratorSpeed { speed: 0, max_speed: 3600 };
    generator.update(2);
    assert_eq!(generator.speed, 1000);
    assert!(!generator.is_running_at_max());
    generator.update(8);
    assert_eq!(generator.speed, 3600);
    assert!(generator.is_running_at_max());
}

#[test]
fn generator_speed_saturates_instead_of_overflowing() {
    let mut generator = GeneratorSpeed { speed: 0, max_speed: i32::MAX };
    generator.update(i32::MAX / 500 + 1);
    assert_eq!(generator.speed, i32::MAX);
    assert!(generator.is_running_at_max());
}

#[test]
fn demand_never_goes_negative() {
    let mut demand = ElectricityDemand { demand: 3 };
    demand.update(-5);
    assert_eq!(demand.demand, 0);
    demand.update(4);
    assert_eq!(demand.demand, 4);
    demand.update(i32::MIN);
    assert_eq!(demand.demand, 0);
}

#[test]
fn demand_saturates_instead_of_overflowing() {
    let mut demand = ElectricityDemand { demand: i32::MAX - 2 };
    demand.update(5);
    assert_eq!(demand.demand, i32::MAX);
}

#[test]
fn saturating_addition_matches_its_contract() {
    assert_eq!(pp_sim::arith::sat_add_i32(3, 4), 7);
    assert_eq!(pp_sim::arith::sat_add_i32(i32::MAX, 1), i32::MAX);
    assert_eq!(pp_sim::arith::sat_add_i32(i32::MIN, -1), i32::MIN);
    assert_eq!(pp_sim::arith::sat_add_i32(-3, 3), 0);
}
