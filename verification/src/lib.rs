//! Event distribution and aggregation engine of a simulated microcontroller.
//!
//! Producers (a timer and peripherals) synthesize [`event::SystemEvent`]s, a
//! dispatcher re-publishes each of them to observers, and a monitor counts what
//! it sees. Every component here is a state machine over plain values: the
//! caller owns the channels and the clock, performs the action that a step
//! returns, and feeds the outcome back in.

pub mod event;
pub mod text;
pub mod monitor;
pub mod mcu;
pub mod dispatcher;
pub mod peripherals;
pub mod laws;
