//! Command dispatch and job coordination between a UI surface and
//! long-running native operations.
//!
//! A request names one command of a closed set.  The dispatcher checks
//! what the command needs, cancels or frees what it can on its own, and
//! hands everything else to the host as a call to make.  Every decision is
//! a function of plain values, so the host owns all I/O, all threads and
//! all locks: it performs the action it is given and reports back what
//! happened.

pub mod analyzer;
pub mod appdata;
pub mod command;
pub mod commands;
pub mod datadir;
pub mod discovery;
pub mod plugin;
pub mod token;
pub mod transactions;
