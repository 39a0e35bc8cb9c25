//! One-shot threshold-crossing alerts over a stream of metric samples.
//!
//! The heart of the crate is [`alerter::ThresholdAlerter`], a state machine
//! that turns a stream of non-negative integer metric samples into alert
//! events: exactly one event each time the metric crosses a fixed threshold,
//! with repeat alerts suppressed while the metric stays on the same side.
//! Fetching the metric and delivering the alert text are left to the
//! surrounding process; the state machine itself performs no I/O.

pub mod alerter;
pub mod laws;
pub mod render;
pub mod stream;
