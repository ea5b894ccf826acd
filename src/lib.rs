//! A verified interpreter for a 16-bit register machine with a unified
//! word-addressed memory, condition-code branching and trap-based I/O.

pub mod hw;
