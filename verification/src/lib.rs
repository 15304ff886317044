//! Verified core of the EVE Flipper desktop shell.
//!
//! The shell has one job at startup: find the backend executable that ships
//! beside it, start it on a fixed port, and tell the user when either step
//! fails. This crate holds every decision of that job as pure, verified
//! functions. The host program performs the effects (looking up the sidecar,
//! creating the process, showing a dialog, exiting) and reports each outcome
//! back as an event.

pub mod backend;
pub mod failure;
pub mod launcher;
pub mod report;
pub mod run;
pub mod utf16;
