//! Verified core of a remote rendering worker.
//!
//! A trusted main server submits rendering jobs over a mutually authenticated
//! link; the worker renders each job through a pipeline of external tools and
//! streams status back until completion.  This crate holds the verified core:
//! the template cache, the job queue and status map, the per-connection
//! protocol state machine, the scheduler decisions, and the per-step pipeline
//! logic.  The unverified shell around it performs the network and file I/O
//! and drives these state machines.

pub mod assoc;
pub mod cache;
pub mod commands;
pub mod formats;
pub mod handler;
pub mod ids;
pub mod pipeline;
pub mod qr;
pub mod queue;
pub mod scheduler;
pub mod settings;
pub mod status;
pub mod textutil;
