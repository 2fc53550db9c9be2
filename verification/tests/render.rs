use space_checker::{render_report, respond, FilesystemStats, Method, ReplyBody, SpaceReport};

#[test]
fn render_plain_report() {
    let rep = SpaceReport {
        path: String::from("/tmp"),
        free: 300,
        available: 200,
        total: 1000,
        buffer_size: 1073741824,
    };
    assert_eq!(
        render_report(&rep),
        "{\"path\":\"/tmp\",\"free\":300,\"available\":200,\"total\":1000,\"buffer_size\":1073741824}"
    );
}

#[test]
fn render_zero_and_max_values() {
    let rep = SpaceReport {
        path: String::from(""),
        free: 0,
        available: u64::MAX,
        total: 10,
        buffer_size: 1073741824,
    };
    assert_eq!(
        render_report(&rep),
        "{\"path\":\"\",\"free\":0,\"available\":18446744073709551615,\"total\":10,\"buffer_size\":1073741824}"
    );
}

#[test]
fn render_escapes_path() {
    let rep = SpaceReport {
        path: String::from("a\"b\\c\nd"),
        free: 1,
        available: 1,
        total: 1,
        buffer_size: 1073741824,
    };
    assert_eq!(
        render_report(&rep),
        "{\"path\":\"a\\\"b\\\\c\\u000ad\",\"free\":1,\"available\":1,\"total\":1,\"buffer_size\":1073741824}"
    );
}

#[test]
fn render_scenario_body_reports_available() {
    let stats = FilesystemStats {
        free: 10_500_000_000,
        available: 10_000_000_000,
        total: 20_000_000_000,
    };
    let reply = respond(Method::Post, b"{\"requested\": 1}", "/tmp", &stats);
    match reply.body {
        ReplyBody::Report(rep) => {
            let body = render_report(&rep);
            assert!(body.contains("\"available\":10000000000"));
            assert!(body.contains("\"buffer_size\":1073741824"));
        }
        ReplyBody::ClientError => panic!("expected a report body"),
    }
}
