//! A small library for a disk-space reporting service.
//!
//! The service monitors one filesystem path, fixed at startup. For every
//! request it reads fresh statistics from the operating system and builds a
//! report of free, available and total bytes. A `POST` request additionally
//! carries a requested byte count; the request is granted only when that
//! amount fits under the available space while keeping a fixed 1 GiB safety
//! buffer free.

use vstd::prelude::*;

pub mod handler;
pub mod query;
pub mod render;
pub mod stats;

pub use handler::{
    handle_request, respond, space_available, Method, Reply, ReplyBody, SpaceReport,
};
pub use query::{parse_query, QueryError, SpaceQuery};
pub use render::render_report;
pub use stats::{get_stats, FilesystemStats, StatsError};

verus! {

/// Safety margin, in bytes, kept free on the monitored filesystem (1 GiB).
/// A requested allocation is granted only if this much would still remain
/// available afterwards.
pub const BUFFER_SIZE: u64 = 1024 * 1024 * 1024;

} // verus!
