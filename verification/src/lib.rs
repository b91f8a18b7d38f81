//! A verified core for a fetch-and-archive pipeline.
//!
//! The library models the data flow of a small download service: a client
//! submits a URL, the service fetches the resource in bounded chunks while
//! broadcasting progress to any number of observers, packs the finished file
//! into a single-entry zip archive, streams the archive back, and finally
//! deletes the transient files after a fixed delay.
//!
//! All decisions of that pipeline — input validation, filename resolution,
//! progress arithmetic and formatting, observer bookkeeping, error
//! classification, the cleanup plan — live here, with contracts checked by
//! Verus. The surrounding process (HTTP handling, the network and filesystem
//! calls, timers) drives these functions and performs the I/O they plan.

pub mod archive;
pub mod errors;
pub mod fetch;
pub mod progress;
pub mod registry;
pub mod request;
pub mod resolve;
pub mod respond;
pub mod text;
