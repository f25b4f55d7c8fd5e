//! Verified allocation, settlement and loss-containment logic of the KOLNY
//! colony: the pheromone trail model, bounded water-filling, share
//! accounting, the loss waterfall, and the instruction decisions that move the
//! colony's accounts from one state to the next.
use vstd::prelude::*;

pub mod constants;
pub mod errors;
pub mod events;
pub mod instructions;
pub mod invariants;
pub mod math;
pub mod state;

verus! {
} // verus!
