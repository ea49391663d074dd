//! The record of a fleet's cloud resources and the rules that drive them
//! from declared to created.
//!
//! The [`ledger`] holds what the caller declared and which resources exist.
//! The [`orchestrator`] takes a ledger through the provisioning [`plan`],
//! step by step: it is told what happened and answers with the next request,
//! so that whoever talks to the provider never decides anything. Its
//! behaviour is that of the machine in [`model`], of which [`laws`] proves
//! that a run respects dependencies, never overwrites, is safe to repeat and
//! resumes where it was saved.

pub mod backoff;
pub mod errors;
pub mod identity;
pub mod kind;
pub mod laws;
pub mod ledger;
pub mod model;
pub mod orchestrator;
pub mod outputs;
pub mod plan;
pub mod protocol;
pub mod region;
pub mod snapshot;
pub mod text;
