//! A load generator's decision core for a transactional backend.
//!
//! The crate decides which backend calls each simulated transaction issues,
//! in which order, and how many transactions may be in flight at a time.
//! Sending the calls is left to the caller: every component here is a state
//! machine that hands out the next action and takes back what happened.

pub mod backend;
pub mod json;
pub mod lifecycle;
pub mod opts;
pub mod runner;
pub mod scheduler;
pub mod strategy;
pub mod wire;
