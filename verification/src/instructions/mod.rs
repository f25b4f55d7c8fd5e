//! Instruction decisions: each takes the accounts an instruction touches as
//! plain values, checks what the instruction checks, and writes what it writes.
//! Token movements and events are returned for the caller to carry out.
pub mod admin;
pub mod forager;
pub mod vault;
pub mod risk;
pub mod settlement;
