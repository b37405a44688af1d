//! Pools whose equilibrium is a configured reserve of X: the target is set
//! by the pool's administrator and the curve is anchored to it.

pub mod amm;
pub mod consts;
pub mod errors;
pub mod laws;
pub mod state;
