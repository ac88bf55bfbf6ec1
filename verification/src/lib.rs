//! A discrete-event model of a machining line served by one transfer robot.
//!
//! Work pieces (transactions) travel a fixed route of blocks: they are
//! generated, carried by the robot to a group of machining centres, machined,
//! carried by the robot to the conveyor and terminated. Pending events live in
//! the future event chain, ready ones in the current event chain.
//!
//! Simulated time is kept on an integer clock whose tick is one tenth of the
//! model's time unit.

pub mod models;
pub mod chains;
pub mod state;
pub mod print;
pub mod laws;
