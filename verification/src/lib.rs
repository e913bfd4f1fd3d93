//! Deploying a contract written in Miden assembly and calling it once.
//!
//! A demo compiles a contract module into an account component, derives an account from it,
//! registers the account with a client, looks up the digest of the procedure that a caller
//! script names, fills that digest into the script, and has the script executed and submitted
//! as a transaction against the account. This crate holds the decisions of such a run and what
//! the Miden SDK computes for it; talking to the node, reading files and waiting are left to
//! whoever drives the run.
//!
//! - [`demo`]: the demos, their names and paths, and the command line.
//! - [`text`]: filling the placeholder of a caller script.
//! - [`exports`]: finding a procedure among a component's exports.
//! - [`account`]: deriving the contract's account.
//! - [`workflow`]: the run, step by step.
//! - [`laws`]: what holds of every run.
//! - [`miden`]: the calls into the SDK, with the contracts that the rest relies on.

pub mod account;
pub mod demo;
pub mod exports;
pub mod fault;
pub mod laws;
pub mod miden;
pub mod text;
pub mod workflow;
