//! Provisioning and teardown of a small fleet of cloud machines, driven by a
//! persisted deployment document.
//!
//! The library decides and records; it performs nothing. A run is an
//! [`orchestrator::Orchestrator`]: it hands out batches of
//! [`action::Action`]s, the caller performs them against the provider, the
//! local disk and the machines, and hands the outcome back as an
//! [`action::Event`]. What holds of every run, whatever the collaborators
//! answer, is stated and proved in [`laws`].
//!
//! - [`deployment`]: the document, its rules, and what it records.
//! - [`generate`]: a new document from the options of the operator.
//! - [`naming`], [`paths`], [`artifacts`]: the names, local files and
//!   templates of a deployment.
//! - [`params`]: the tags, parameters and waiting times of the stacks.
//! - [`poller`], [`fleet`]: waiting at a fixed cadence, and the discovery of
//!   the machines and their addresses.
//! - [`phase`], [`orchestrator`], [`entry`], [`transition`], [`run`]: the
//!   steps of a run and how it goes from one to the next.
//! - [`text`]: the text operations that the rest builds on.

pub mod action;
pub mod artifacts;
pub mod deployment;
pub mod entry;
pub mod fleet;
pub mod generate;
pub mod laws;
pub mod naming;
pub mod orchestrator;
pub mod params;
pub mod paths;
pub mod phase;
pub mod poller;
pub mod run;
pub mod text;
pub mod transition;
