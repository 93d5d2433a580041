//! Core engine of an iterative hypothesis-research pipeline.
//!
//! The library models independently running research tasks: each task walks a
//! multi-iteration generate / evaluate / reduce / synthesize / test pipeline,
//! can be cancelled cooperatively at iteration boundaries, and emits an
//! ordered stream of self-contained progress snapshots.  The terminal
//! front-end and all I/O live outside the library; the state machines,
//! scoring and formatting logic here are verified.

pub mod app;
pub mod codec;
pub mod evaluator;
pub mod llm;
pub mod protocol;
pub mod report;
pub mod runner;
pub mod scheduler;
pub mod screens;
pub mod task;
pub mod text;
