//! Bootstrapping of a local Python project: a directory, a git repository, a
//! virtual environment, the requested packages, a starter file and, on
//! request, an editor opened on the result.
//!
//! The library decides; it performs nothing. It resolves the configuration
//! of a run, names every program to be run and every file to be written, and
//! says how the run goes on after each of them. A driver carries the actions
//! out and reports what became of them.

pub mod backend;
pub mod cli;
pub mod editor;
pub mod laws;
pub mod modules;
pub mod pipeline;
pub mod report;
pub mod runner;
pub mod text;
