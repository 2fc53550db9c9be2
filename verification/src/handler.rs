//! Request handling: building a report from the statistics read for one
//! request and, for POST, deciding whether the requested allocation fits.

use vstd::prelude::*;

use crate::query::{parse_query, parse_query_spec};
use crate::stats::{get_stats, FilesystemStats, StatsError};
use crate::BUFFER_SIZE;

verus! {

/// The request methods the service distinguishes. Anything that is not a
/// POST is served like a GET: a bare statistics report.
#[derive(Clone, Copy, Debug, PartialEq, Eq, Structural)]
pub enum Method {
    Get,
    Post,
}

/// The response body sent for both methods: the monitored path, the byte
/// counts read for this request, and the fixed safety buffer size.
#[derive(Debug)]
pub struct SpaceReport {
    pub path: String,
    pub free: u64,
    pub available: u64,
    pub total: u64,
    pub buffer_size: u64,
}

/// What a reply carries: the full report, or a bare client-error marker
/// when the POST body could not be parsed.
#[derive(Debug)]
pub enum ReplyBody {
    Report(SpaceReport),
    ClientError,
}

/// One finished reply: an HTTP status code and the body to send.
#[derive(Debug)]
pub struct Reply {
    pub status: u16,
    pub body: ReplyBody,
}

/// The grant policy: a request for `requested` bytes is granted exactly
/// when the full safety buffer would still be available afterwards. In
/// particular, when less than the buffer is available, every request is
/// refused, a request for 0 bytes included.
pub open spec fn grant_ok(available: u64, requested: u64) -> bool {
    requested + BUFFER_SIZE <= available
}

/// The report echoes the monitored path, the statistics read for this
/// request, and the fixed buffer size.
pub open spec fn report_matches(rep: SpaceReport, path: Seq<char>, stats: FilesystemStats) -> bool {
    &&& rep.path@ == path
    &&& rep.free == stats.free
    &&& rep.available == stats.available
    &&& rep.total == stats.total
    &&& rep.buffer_size == BUFFER_SIZE
}

/// The whole handling contract: what reply a request with `method` and
/// `body` receives when the OS query for `path` returned `stats`.
pub open spec fn respond_spec(
    method: Method,
    body: Seq<u8>,
    path: Seq<char>,
    stats: FilesystemStats,
    reply: Reply,
) -> bool {
    match method {
        Method::Get => {
            &&& reply.status == 200
            &&& reply.body matches ReplyBody::Report(rep)
            &&& report_matches(rep, path, stats)
        },
        Method::Post => match parse_query_spec(body) {
            Some(v) => {
                &&& reply.body matches ReplyBody::Report(rep)
                &&& report_matches(rep, path, stats)
                &&& reply.status == if grant_ok(stats.available, v) {
                    200int
                } else {
                    400int
                }
            },
            None => {
                &&& reply.status == 400
                &&& reply.body is ClientError
            },
        },
    }
}

/// Builds the report for one request from the statistics just read.
pub fn build_report(path: &str, stats: &FilesystemStats) -> (r: SpaceReport)
    ensures
        report_matches(r, path@, *stats),
{
    SpaceReport {
        path: String::from_str(path),
        free: stats.free,
        available: stats.available,
        total: stats.total,
        buffer_size: BUFFER_SIZE,
    }
}

/// Decides whether `requested` bytes can be granted out of `available`
/// while a full safety buffer stays free. The subtraction is guarded, so
/// an `available` below the buffer refuses every request instead of
/// wrapping around.
pub fn space_available(available: u64, requested: u64) -> (r: bool)
    ensures
        r == grant_ok(available, requested),
{
    available >= BUFFER_SIZE && requested <= available - BUFFER_SIZE
}

/// Computes the reply for one request from the statistics read for it:
/// a GET is always served the report with status 200; a POST is served
/// the report with status 200 or 400 by the grant policy, or a 400
/// client error when its body does not parse.
pub fn respond(method: Method, body: &[u8], monitored_fs: &str, stats: &FilesystemStats) -> (r:
    Reply)
    ensures
        respond_spec(method, body@, monitored_fs@, *stats, r),
{
    match method {
        Method::Get => Reply {
            status: 200,
            body: ReplyBody::Report(build_report(monitored_fs, stats)),
        },
        Method::Post => match parse_query(body) {
            Ok(q) => {
                let status: u16 = if space_available(stats.available, q.requested) {
                    200
                } else {
                    400
                };
                Reply { status, body: ReplyBody::Report(build_report(monitored_fs, stats)) }
            },
            Err(_) => Reply { status: 400, body: ReplyBody::ClientError },
        },
    }
}

/// Handles one request against the monitored filesystem: reads fresh
/// statistics from the OS, then computes the reply. Fails only when the
/// OS query itself fails; whatever statistics the OS reported, the reply
/// satisfies the handling contract for them.
pub fn handle_request(method: Method, body: &[u8], monitored_fs: &str) -> (r: Result<
    Reply,
    StatsError,
>)
    ensures
        r matches Ok(reply) ==> exists|stats: FilesystemStats|
            respond_spec(method, body@, monitored_fs@, stats, reply),
{
    match get_stats(monitored_fs) {
        Ok(stats) => {
            let reply = respond(method, body, monitored_fs, &stats);
            proof {
                assert(respond_spec(method, body@, monitored_fs@, stats, reply));
            }
            Ok(reply)
        },
        Err(e) => Err(e),
    }
}

/// When the OS-reported statistics keep the OS guarantee that available
/// space never exceeds free space, every GET reply keeps it too.
pub proof fn lemma_get_reply_keeps_available_le_free(
    body: Seq<u8>,
    path: Seq<char>,
    stats: FilesystemStats,
    reply: Reply,
)
    requires
        respond_spec(Method::Get, body, path, stats, reply),
        stats.available <= stats.free,
    ensures
        reply.body matches ReplyBody::Report(rep) && rep.available <= rep.free,
{
}

/// A GET reply always has status 200, whatever statistics the OS
/// reported.
pub proof fn lemma_get_reply_status_200(
    body: Seq<u8>,
    path: Seq<char>,
    stats: FilesystemStats,
    reply: Reply,
)
    requires
        respond_spec(Method::Get, body, path, stats, reply),
    ensures
        reply.status == 200,
{
}

/// A POST requesting 0 bytes is granted whenever at least the safety
/// buffer is available.
pub proof fn lemma_post_zero_granted(
    body: Seq<u8>,
    path: Seq<char>,
    stats: FilesystemStats,
    reply: Reply,
)
    requires
        respond_spec(Method::Post, body, path, stats, reply),
        parse_query_spec(body) == Some(0u64),
        stats.available >= BUFFER_SIZE,
    ensures
        reply.status == 200,
{
}

/// The grant boundary is exact: a POST for exactly `available` minus the
/// buffer is granted, and a POST for one byte more is refused.
pub proof fn lemma_post_threshold_boundary(
    body_at: Seq<u8>,
    body_over: Seq<u8>,
    path: Seq<char>,
    stats: FilesystemStats,
    reply_at: Reply,
    reply_over: Reply,
)
    requires
        stats.available >= BUFFER_SIZE,
        respond_spec(Method::Post, body_at, path, stats, reply_at),
        parse_query_spec(body_at) == Some((stats.available - BUFFER_SIZE) as u64),
        respond_spec(Method::Post, body_over, path, stats, reply_over),
        parse_query_spec(body_over) == Some((stats.available - BUFFER_SIZE + 1) as u64),
    ensures
        reply_at.status == 200,
        reply_over.status == 400,
{
}

/// A POST requesting more than the whole available space is refused, and
/// its reply still reports the statistics read for the request: the same
/// values a GET served from those statistics would report.
pub proof fn lemma_post_over_available_refused(
    body: Seq<u8>,
    path: Seq<char>,
    stats: FilesystemStats,
    reply: Reply,
    requested: u64,
)
    requires
        respond_spec(Method::Post, body, path, stats, reply),
        parse_query_spec(body) == Some(requested),
        requested > stats.available,
    ensures
        reply.status == 400,
        reply.body matches ReplyBody::Report(rep) && rep.available == stats.available
            && rep.free == stats.free,
{
}

/// A POST whose body does not parse is refused with status 400 and never
/// answered with 200.
pub proof fn lemma_post_malformed_refused(
    body: Seq<u8>,
    path: Seq<char>,
    stats: FilesystemStats,
    reply: Reply,
)
    requires
        respond_spec(Method::Post, body, path, stats, reply),
        parse_query_spec(body) is None,
    ensures
        reply.status == 400,
        reply.body is ClientError,
{
}

/// Every reply that carries a report states the fixed 1 GiB buffer size,
/// whatever the method and whatever the outcome of the grant decision.
pub proof fn lemma_reply_buffer_size_constant(
    method: Method,
    body: Seq<u8>,
    path: Seq<char>,
    stats: FilesystemStats,
    reply: Reply,
)
    requires
        respond_spec(method, body, path, stats, reply),
    ensures
        reply.body matches ReplyBody::Report(rep) ==> rep.buffer_size == 1073741824,
{
}

} // verus!
