//! The node side of a time-triggered scheduler.
//!
//! A node gets its schedule from a scheduler, sets the scheduled tasks up on its machine,
//! starts them together with the other nodes, and follows changes of the schedule until it
//! is told to stop. This library decides what to do; a program around it does it, and tells
//! the library what came of it.
//!
//! - [`node`] is the course of a node, from start to exit, and [`node_laws`] what holds of
//!   it as a whole.
//! - [`context`] is the state of a node and its initialization.
//! - [`schedule`] is what the scheduler assigned, and [`proto`] how it says so.
//! - [`task`] is the setup of a schedule's tasks.
//! - [`sched`] is affinity, policies, process discovery and pidfds.
//! - [`clock`] converts timestamps of the kernel to real time.
//! - [`config`], [`logging`] and [`error`] are what the others share.
//! - [`sys`] is what is taken from outside, and believed.

pub mod clock;
pub mod config;
pub mod context;
pub mod error;
pub mod logging;
pub mod node;
pub mod node_laws;
pub mod proto;
pub mod sched;
pub mod schedule;
pub mod sys;
pub mod task;

pub use node::initialize;
pub use node::run;
pub use node::run_app;
