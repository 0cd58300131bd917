//! Event handling for a terminal N-body simulation: the events that reach the
//! simulation loop, the decisions of the two event producers, and the state
//! machine that the loop follows.
pub mod controller;
pub mod events;
