//! Filesystem statistics, read fresh from the operating system per request.

use vstd::prelude::*;

verus! {

/// Byte counts the operating system reports for one mounted filesystem:
/// `free` bytes not in use, `available` bytes usable by non-privileged
/// processes (at most `free`, per OS convention, though nothing here relies
/// on that), and `total` capacity.
#[derive(Clone, Copy, Debug, PartialEq, Eq, Structural)]
pub struct FilesystemStats {
    pub free: u64,
    pub available: u64,
    pub total: u64,
}

/// The OS statistics query failed: the path does not name a reachable
/// filesystem, or the underlying call reported an error.
#[derive(Clone, Copy, Debug, PartialEq, Eq, Structural)]
pub struct StatsError;

#[verifier::external_type_specification]
#[verifier::external_body]
pub struct ExFsStats(fs2::FsStats);

/// Relies on `fs2::FsStats::free_space`: reads the free-byte count stored in
/// the stats value. The count itself depends on disk state, so nothing is
/// promised about it.
pub assume_specification[ fs2::FsStats::free_space ](stats: &fs2::FsStats) -> u64;

/// Relies on `fs2::FsStats::available_space`: reads the stored count of bytes
/// available to non-privileged processes.
pub assume_specification[ fs2::FsStats::available_space ](stats: &fs2::FsStats) -> u64;

/// Relies on `fs2::FsStats::total_space`: reads the stored total capacity.
pub assume_specification[ fs2::FsStats::total_space ](stats: &fs2::FsStats) -> u64;

/// Relies on `fs2::statvfs`: asks the operating system for the statistics of
/// the filesystem containing `path`. Success and the returned counts depend
/// on the machine's state, so nothing is promised of the outcome.
#[verifier::external_body]
fn statvfs_raw(path: &str) -> Result<fs2::FsStats, StatsError> {
    match fs2::statvfs(path) {
        Ok(stats) => Ok(stats),
        Err(_) => Err(StatsError),
    }
}

/// Queries the operating system for the statistics of the filesystem
/// containing `path`. The returned counts are whatever the OS reported at
/// the instant of the call; they are read fresh on every call and never
/// cached, so two calls may disagree.
pub fn get_stats(path: &str) -> Result<FilesystemStats, StatsError> {
    match statvfs_raw(path) {
        Ok(raw) => Ok(
            FilesystemStats {
                free: raw.free_space(),
                available: raw.available_space(),
                total: raw.total_space(),
            },
        ),
        Err(e) => Err(e),
    }
}

} // verus!
