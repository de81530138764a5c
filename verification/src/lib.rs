//! Incremental tailing of append-only text log files.
//!
//! The library owns the pure, verified part of a log-tailing tool: per-file
//! cursor bookkeeping (`watched`), the registry and event-loop decisions of
//! the tailing worker (`worker`), the directory scan's filename rule
//! (`scan`), and the message vocabularies exchanged with the supervising
//! context and the downstream consumer (`common`, `events`). All file,
//! channel and filesystem-watch I/O lives outside the library and hands
//! plain values in and out.

pub mod common;
pub mod events;
pub mod scan;
pub mod watched;
pub mod worker;
