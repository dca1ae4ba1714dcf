//! Driver core for a half-duplex 802.15.4 transceiver behind an SPI bus.
//!
//! The driver is a state machine that performs no I/O. Its caller hands it
//! every event (a call of the radio stack, an edge on the chip's interrupt
//! line, the completion of a bus exchange) and carries out what the
//! returned [`outcome::Outcome`] asks for: at most one bus exchange, pin
//! operations, and the calls to the clients above.
//!
//! - [`regs`]: register map, opcodes, mode codes, interrupt causes and the
//!   settings programmed at startup.
//! - [`state`]: the operating state.
//! - [`outcome`]: return codes and actions.
//! - [`driver`]: the driver's data and its invariant.
//! - [`bus`]: bus transaction layer.
//! - [`codec`]: frame header and removal of the status byte.
//! - [`arbiter`]: interrupt arbitration.
//! - [`engine`]: the step taken on every completed exchange.
//! - [`radio`]: the public service.
//! - [`run`]: runs of events, over which the laws are stated.
//! - [`laws`]: what holds of every state and of every run.
//!
//! Every executable function is specified by a spec function on
//! [`driver::Model`], the driver as a mathematical value, and proved
//! against it.

pub mod regs;
pub mod state;
pub mod outcome;
pub mod driver;
pub mod bus;
pub mod codec;
pub mod arbiter;
pub mod engine;
pub mod radio;
pub mod run;
pub mod laws;
