//! The laws of the simulation: invariant preservation and monotonicity,
//! proved once and for all over the step and run functions.

use vstd::prelude::*;

use crate::generator::at_max;
use crate::sim::{initial_state, inv, sim_run, sim_step, Config, SimModel};

verus! {

/// A valid configuration starts the simulation in a well-formed state: in
/// particular the generator speed lies in `[0, max_speed]` and the demand is
/// nonnegative from the outset.
pub proof fn lemma_initial_state_inv(c: Config)
    requires
        c.valid(),
    ensures
        inv(initial_state(c)),
{
}

/// One step from a well-formed state lands in a well-formed state, whatever
/// the demand draw: the generator speed stays within `[0, max_speed]` and
/// the demand stays nonnegative after every update.
pub proof fn lemma_step_preserves_inv(s: SimModel, delta: int)
    requires
        inv(s),
    ensures
        inv(sim_step(s, delta)),
{
}

/// A whole run from a well-formed state stays well-formed, whatever the
/// demand draws.
pub proof fn lemma_run_preserves_inv(s: SimModel, deltas: Seq<int>)
    requires
        inv(s),
    ensures
        inv(sim_run(s, deltas)),
    decreases deltas.len(),
{
    if deltas.len() > 0 {
        lemma_step_preserves_inv(s, deltas[0]);
        lemma_run_preserves_inv(sim_step(s, deltas[0]), deltas.drop_first());
    }
}

/// Cumulative fuel consumption never decreases in a step, and strictly
/// increases whenever the consumption rate is positive and the total has not
/// yet saturated at `i32::MAX`.
pub proof fn lemma_step_consumed_monotone(s: SimModel, delta: int)
    requires
        inv(s),
    ensures
        sim_step(s, delta).fuel.consumed >= s.fuel.consumed,
        s.fuel.rate_of_consumption > 0 && s.fuel.consumed < i32::MAX as int ==> sim_step(
            s,
            delta,
        ).fuel.consumed > s.fuel.consumed,
{
}

/// Across a whole run, cumulative fuel consumption never decreases.
pub proof fn lemma_run_consumed_monotone(s: SimModel, deltas: Seq<int>)
    requires
        inv(s),
    ensures
        sim_run(s, deltas).fuel.consumed >= s.fuel.consumed,
    decreases deltas.len(),
{
    if deltas.len() > 0 {
        lemma_step_preserves_inv(s, deltas[0]);
        lemma_step_consumed_monotone(s, deltas[0]);
        lemma_run_consumed_monotone(sim_step(s, deltas[0]), deltas.drop_first());
    }
}

/// The consumption rate never decreases in a step.
pub proof fn lemma_step_rate_monotone(s: SimModel, delta: int)
    requires
        inv(s),
    ensures
        sim_step(s, delta).fuel.rate_of_consumption >= s.fuel.rate_of_consumption,
{
}

/// Across a whole run, the consumption rate never decreases.
pub proof fn lemma_run_rate_monotone(s: SimModel, deltas: Seq<int>)
    requires
        inv(s),
    ensures
        sim_run(s, deltas).fuel.rate_of_consumption >= s.fuel.rate_of_consumption,
    decreases deltas.len(),
{
    if deltas.len() > 0 {
        lemma_step_preserves_inv(s, deltas[0]);
        lemma_step_rate_monotone(s, deltas[0]);
        lemma_run_rate_monotone(sim_step(s, deltas[0]), deltas.drop_first());
    }
}

/// Once the generator runs at its maximum, one more step leaves the
/// consumption rate unchanged and the generator still at its maximum.
pub proof fn lemma_step_rate_constant_at_max(s: SimModel, delta: int)
    requires
        inv(s),
        at_max(s.generator),
    ensures
        sim_step(s, delta).fuel.rate_of_consumption == s.fuel.rate_of_consumption,
        at_max(sim_step(s, delta).generator),
{
}

/// Once the generator runs at its maximum, the consumption rate stays
/// constant for the rest of the run and the generator stays at its maximum.
pub proof fn lemma_run_rate_constant_at_max(s: SimModel, deltas: Seq<int>)
    requires
        inv(s),
        at_max(s.generator),
    ensures
        sim_run(s, deltas).fuel.rate_of_consumption == s.fuel.rate_of_consumption,
        at_max(sim_run(s, deltas).generator),
    decreases deltas.len(),
{
    if deltas.len() > 0 {
        lemma_step_preserves_inv(s, deltas[0]);
        lemma_step_rate_constant_at_max(s, deltas[0]);
        lemma_run_rate_constant_at_max(sim_step(s, deltas[0]), deltas.drop_first());
    }
}

} // verus!
