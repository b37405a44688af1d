//! Pools whose equilibrium follows the net position they hold in a lending
//! market: reserves are deposited there, and the target moves with every
//! deposit and borrow.

pub mod amm;
pub mod consts;
pub mod errors;
pub mod laws;
pub mod state;
