//! Constrained stochastic search for a controller-input sequence that drives a
//! frame-stepped simulation towards a target state.
//!
//! The library holds the rules of the search: bound evaluation, weight
//! penalisation, scoring decisions, input perturbation and the hill-climbing
//! state machine. Real-valued quantities travel through it as IEEE-754 bit
//! patterns, which it orders but never does arithmetic on.

pub mod ieee;

pub mod bounds;
pub mod bruteforce_params;
pub mod bruteforcer;
pub mod search;
