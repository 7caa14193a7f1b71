//! The command line: what a run acts on, what it decides between two steps of a
//! pipeline, and what it prints.
//!
//! One module per subject, in the order a run meets them: [`resolve`] works out what
//! the run acts on, [`signin`] is the default pipeline, [`grant`] and [`host`] are the
//! subcommands, [`verify`] is the end-to-end proof.

pub mod grant;
pub mod host;
pub mod resolve;
pub mod signin;
pub mod verify;
