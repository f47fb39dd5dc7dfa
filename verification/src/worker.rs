//! The Worker board: the motor bridge between its radio task and its motor
//! task, and the handling of the Brain's frames.
pub mod espnow;
pub mod motors;
