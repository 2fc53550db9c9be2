use space_checker::{
    get_stats, handle_request, respond, space_available, FilesystemStats, Method, Reply,
    ReplyBody, SpaceQuery,
};

const MONITORED_FS: &str = "/tmp";

fn report_of(reply: Reply) -> space_checker::SpaceReport {
    match reply.body {
        ReplyBody::Report(rep) => rep,
        ReplyBody::ClientError => panic!("expected a report body"),
    }
}

#[test]
fn test_handle_request_get() {
    let response = handle_request(Method::Get, &[], MONITORED_FS).unwrap();
    assert_eq!(response.status, 200);
    let result = report_of(response);
    assert_eq!(result.path, MONITORED_FS);
    assert!(result.available <= result.free);
}

#[test]
fn test_handle_request_post_ok() {
    // This test requires at least BUFFER_SIZE+1 of free space on /tmp...
    let body = "{ \"requested\": 1 }".as_bytes();
    let response = handle_request(Method::Post, body, MONITORED_FS).unwrap();
    assert_eq!(response.status, 200);
    let result = report_of(response);
    assert_eq!(result.path, MONITORED_FS);
    assert!(result.available <= result.free);
}

#[test]
fn test_handle_request_post_ko() {
    // Not enough free space
    let stats = get_stats(MONITORED_FS).unwrap();
    let body = format!("{{ \"requested\": {} }}", stats.available + 5);
    let response = handle_request(Method::Post, body.as_bytes(), MONITORED_FS).unwrap();
    assert_eq!(response.status, 400);
    let result = report_of(response);
    assert_eq!(result.path, MONITORED_FS);
    assert!(result.available <= result.free);
}

#[test]
fn get_stats_bad_path_fails() {
    assert!(get_stats("/surely/not/a/mounted/filesystem").is_err());
}

#[test]
fn get_reply_is_200_whatever_the_space() {
    // GET returns 200 even when nothing at all is available.
    let stats = FilesystemStats { free: 0, available: 0, total: 0 };
    let reply = respond(Method::Get, &[], "/data", &stats);
    assert_eq!(reply.status, 200);
    let rep = report_of(reply);
    assert_eq!(rep.path, "/data");
    assert_eq!(rep.free, 0);
    assert_eq!(rep.available, 0);
    assert_eq!(rep.total, 0);
}

#[test]
fn get_reply_echoes_stats() {
    let stats = FilesystemStats { free: 300, available: 200, total: 1000 };
    let rep = report_of(respond(Method::Get, &[], "/data", &stats));
    assert_eq!(rep.free, 300);
    assert_eq!(rep.available, 200);
    assert_eq!(rep.total, 1000);
    assert_eq!(rep.buffer_size, 1073741824);
}

#[test]
fn post_zero_granted_when_buffer_available() {
    let stats = FilesystemStats {
        free: 2_000_000_000,
        available: 1073741824,
        total: 4_000_000_000,
    };
    let reply = respond(Method::Post, b"{\"requested\":0}", "/data", &stats);
    assert_eq!(reply.status, 200);
}

#[test]
fn post_zero_refused_below_buffer() {
    // Less than the safety buffer available: even a request for 0 bytes fails.
    let stats = FilesystemStats {
        free: 2_000_000_000,
        available: 1073741823,
        total: 4_000_000_000,
    };
    let reply = respond(Method::Post, b"{\"requested\":0}", "/data", &stats);
    assert_eq!(reply.status, 400);
}

#[test]
fn post_threshold_boundary() {
    let stats = FilesystemStats {
        free: 11_000_000_000,
        available: 10_000_000_000,
        total: 20_000_000_000,
    };
    // available - buffer_size == 8926258176.
    let at = respond(Method::Post, b"{\"requested\":8926258176}", "/data", &stats);
    assert_eq!(at.status, 200);
    let over = respond(Method::Post, b"{\"requested\":8926258177}", "/data", &stats);
    assert_eq!(over.status, 400);
}

#[test]
fn post_far_over_available_refused_with_full_report() {
    let stats = FilesystemStats {
        free: 11_000_000_000,
        available: 10_000_000_000,
        total: 20_000_000_000,
    };
    let body = format!("{{\"requested\":{}}}", 10_000_000_000u64 + 1000);
    let reply = respond(Method::Post, body.as_bytes(), "/data", &stats);
    assert_eq!(reply.status, 400);
    let rep = report_of(reply);
    // The refusal still reports the same numbers a GET would.
    let get_rep = report_of(respond(Method::Get, &[], "/data", &stats));
    assert_eq!(rep.available, get_rep.available);
    assert_eq!(rep.free, get_rep.free);
    assert_eq!(rep.total, get_rep.total);
}

#[test]
fn post_malformed_bodies_never_200() {
    let stats = FilesystemStats {
        free: 11_000_000_000,
        available: 10_000_000_000,
        total: 20_000_000_000,
    };
    let bodies: [&[u8]; 6] = [
        b"",
        b"not json",
        b"{}",
        b"{\"requested\": true}",
        b"{\"wanted\": 1}",
        b"[1]",
    ];
    for body in bodies {
        let reply = respond(Method::Post, body, "/data", &stats);
        assert_eq!(reply.status, 400);
        assert!(matches!(reply.body, ReplyBody::ClientError));
    }
}

#[test]
fn buffer_size_constant_in_every_report() {
    let stats = FilesystemStats { free: 7, available: 5, total: 9 };
    assert_eq!(report_of(respond(Method::Get, &[], "/a", &stats)).buffer_size, 1073741824);
    let granted = respond(Method::Post, b"{\"requested\":0}", "/a", &stats);
    assert_eq!(report_of(granted).buffer_size, 1073741824);
}

#[test]
fn scenario_ten_gigabytes_available() {
    // Monitored path with available = 10_000_000_000 bytes.
    let stats = FilesystemStats {
        free: 10_500_000_000,
        available: 10_000_000_000,
        total: 20_000_000_000,
    };
    let ok = respond(Method::Post, b"{\"requested\": 1}", "/tmp", &stats);
    assert_eq!(ok.status, 200);
    assert_eq!(report_of(ok).available, 10000000000);
    // 9000000001 exceeds available - buffer = 8926258176.
    let ko = respond(Method::Post, b"{\"requested\": 9000000001}", "/tmp", &stats);
    assert_eq!(ko.status, 400);
}

#[test]
fn space_available_guards_underflow() {
    assert!(!space_available(0, 0));
    assert!(!space_available(1073741823, 0));
    assert!(space_available(1073741824, 0));
    assert!(!space_available(1073741824, 1));
    assert!(space_available(u64::MAX, u64::MAX - 1073741824));
    assert!(!space_available(u64::MAX, u64::MAX));
}

#[test]
fn query_type_carries_requested() {
    let q = SpaceQuery { requested: 77 };
    assert_eq!(q.requested, 77);
}
