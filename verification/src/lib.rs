//! Monte Carlo simulation of a two-player coin-flip scoring game.
//!
//! A trial is a sequence of fair coin flips; every adjacent pair of flips is
//! scored: Heads-Heads gives Alice a point, Heads-Tails gives Bob a point.
//! The sequence is summarised by an associative combine operator over partial
//! summaries, so that any contiguous partition of the flips can be folded
//! independently and merged in range order.

pub mod summary;
pub mod tally;
pub mod trial;
