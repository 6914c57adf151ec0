//! The core of the recipe service.
//!
//! The service keeps several long-running jobs alive together, lets their
//! configuration change while they run, restarts a job that fails without
//! taking the others down, and fans its notifications out to the clients
//! that listen. What decides in all of this lives here, as plain state
//! machines and data structures with contracts:
//!
//! - [`config_channel`] holds the current configuration; the latest snapshot
//!   wins.
//! - [`shutdown`] is the stop notification that fires once.
//! - [`supervisor`] restarts a failing job under the delays of [`backoff`],
//!   and [`outcome`] says how attempts and jobs end.
//! - [`event_bus`] broadcasts notifications to subscribers with bounded
//!   buffers, and [`sse`] turns one subscription into one client's stream.
//! - [`orchestrator`] reacts to the first job that ends and settles what the
//!   process reports when it exits.
//!
//! Beside them stand the rules that the request handlers apply: the settings
//! and their connection strings in [`config`], the accepted names in
//! [`names`], the checks on a registration in [`register`], who a request
//! comes from in [`extractors`], and what becomes of a suggestion in
//! [`suggestion`].
//!
//! Nothing here waits, sleeps or talks to the network. The code that does is
//! told by these types what to do next, and tells them what happened.

pub mod backoff;
pub mod config;
pub mod config_channel;
pub mod error;
pub mod event_bus;
pub mod extractors;
pub mod names;
pub mod orchestrator;
pub mod outcome;
pub mod register;
pub mod shutdown;
pub mod sse;
pub mod suggestion;
pub mod supervisor;
