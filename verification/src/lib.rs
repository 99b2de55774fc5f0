//! The stateful core of a small puzzle server: a leaky milk bucket that
//! rate-limits withdrawals, a 4x4 two-marker board game with gravity drops
//! and ordered win detection, the unit-conversion rules of the withdraw
//! endpoint, and the fixed-seed random source behind randomized boards.

pub mod board;
pub mod bucket;
pub mod convert;
pub mod rng;
