//! A toy power-generation feedback loop.
//!
//! Fuel consumption drives generator speed, which in turn influences future
//! fuel consumption, while electricity demand fluctuates independently via a
//! bounded random walk. All state updates are exact, saturating `i32`
//! arithmetic, and every update routine carries a contract that pins down the
//! new state as a function of the old one.

pub mod arith;
pub mod demand;
pub mod fuel;
pub mod generator;
pub mod laws;
mod rng;
pub mod sim;
