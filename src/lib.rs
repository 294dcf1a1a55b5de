//! Clock bring-up and timer-paced beacon logic for a Cortex-M microcontroller.
//!
//! The hardware itself (register reads and writes, interrupt plumbing, the
//! executor) lives outside this library. Here every decision is a function
//! from plain values to plain values with a proved contract:
//! - [`config`]: the fixed clock-tree constants and the arithmetic behind them;
//! - [`wait`]: single-use readiness conditions polled against a status flag;
//! - [`clock`]: the ordered bring-up sequence of the clock tree;
//! - [`tick`]: the interrupt-fed tick accumulator and its overflow rule;
//! - [`beacon`]: the 8-phase output pattern driven by tick events.
pub mod beacon;
pub mod clock;
pub mod config;
pub mod tick;
pub mod wait;
