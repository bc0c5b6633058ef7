//! Headless operation for a simulation loop: quit detection on terminal input and
//! capture of log messages into a store that a terminal renderer can read.

mod channel;
pub mod exit;
pub mod filter;
pub mod log;
