//! A single-flight supervisor for one background job at a time.
//!
//! The supervisor decides; the host acts. Each entry point takes what the
//! host has just observed (a start request, the outcome of a launch, the
//! status seen by a poll tick) and hands back the actions the host has to
//! carry out next, in order.

pub mod action;
pub mod command;
pub mod error;
pub mod laws;
pub mod model;
pub mod supervisor;
