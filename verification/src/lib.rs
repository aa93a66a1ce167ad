//! The decisions of a continuous-delivery worker, verified.
//!
//! For each configured project the worker fetches, looks at the status,
//! pulls, and, where an install directory is configured, builds the
//! release binary and moves it into place under a lock, while a service
//! that uses the binaries is paused. This crate decides; it runs no
//! process, touches no file and reads no clock. Its caller does what a run
//! asks for and reports what came of it:
//!
//! - `executor` splits command lines and judges a finished command by its
//!   exit code;
//! - `poller` decides whether a wait has converged, has timed out, or goes
//!   on;
//! - `lock` is the installation lock, a wait on a sentinel file;
//! - `service` stops and starts the service and waits for it to confirm;
//! - `pipeline` is the state machine of one project's update;
//! - `batch` takes the projects in turn, so that one that fails does not
//!   keep the others from theirs;
//! - `runs` proves what holds of every run;
//! - `config`, `git`, `report` and `text` hold what the others build on.

pub mod batch;
pub mod config;
pub mod executor;
pub mod git;
pub mod lock;
pub mod pipeline;
pub mod poller;
pub mod report;
pub mod runs;
pub mod service;
pub mod text;
