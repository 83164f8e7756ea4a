//! Configuration and the step-by-step plan of a small traced workflow.
//!
//! The library decides what is exported where and which spans, log events and
//! delays the workflow goes through, in which order; the program around it
//! installs the exporter and performs each step.
pub mod config;
pub mod workflow;
