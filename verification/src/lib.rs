//! Core of a small print service: printer discovery, default resolution,
//! document fetch bookkeeping, and platform print dispatch, organised as a
//! verified pipeline. All process and network I/O lives outside this crate;
//! the functions here consume command output and protocol events as plain
//! values and decide every step of a print job.

pub mod decimal;
pub mod directory;
pub mod dispatcher;
pub mod pipeline;
pub mod fetcher;
pub mod models;
pub mod text;
