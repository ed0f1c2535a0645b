//! Decision logic of a flocking simulation: which agents each agent reacts to,
//! where the domain's edges push it, and how its speed is governed.
//! The vector arithmetic itself is done by the host in floating point.

pub mod bounds;
pub mod neighbors;
pub mod governance;
pub mod laws;
