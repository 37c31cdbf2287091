//! Decision logic for running a single-subject analysis tool once per
//! participant over a BIDS dataset: scoped symlink views of the dataset,
//! supervision of one external process with cooperative cancellation, and a
//! bounded-concurrency run over many participants.
//!
//! The library performs no input or output itself. Every operation on the
//! filesystem, on a process or on the clock is described by a value that the
//! caller carries out; what came of it is handed back as an event, and the
//! library decides what follows.

pub mod action;
pub mod bids;
pub mod cancellable_process;
pub mod mriqc;
pub mod orchestrator;
pub mod path;
pub mod views;
