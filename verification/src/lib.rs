//! A process supervisor: it runs one child program, restarts it after a fixed
//! delay whenever it exits abnormally, and stops for good when the child exits
//! normally, is ended by a signal, or a stop request is observed.
//!
//! The library holds the decisions and proves them. It touches no process, no
//! file and no clock: a driver carries out each [`supervisor::Action`] and
//! reports the result as a [`supervisor::Event`].
//!
//! - [`exit`]: what a child's termination means.
//! - [`cancel`]: the stop request, as seen from the loop.
//! - [`config`]: the configuration, and the launch request resolved from it.
//! - [`supervisor`]: the state machine.
//! - [`trace`]: whole runs of the machine over sequences of events.
//! - [`laws`]: what holds of every run.

pub mod cancel;
pub mod config;
pub mod exit;
pub mod laws;
pub mod supervisor;
pub mod trace;
