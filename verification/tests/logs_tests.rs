use recordbase::client::Client;
use recordbase::error::ApiError;
use recordbase::httpc::ScriptTransport;

fn script(responses: Vec<(u16, &str)>) -> ScriptTransport {
    ScriptTransport::new(responses.into_iter().map(|(s, b)| (s, b.to_string())).collect())
}

fn log_item(id: &str, created: &str) -> String {
    format!(
        r#"{{"id":"{}","created":{},"updated":"2022-01-01T10:00:00.123Z","url":"/api/x","method":"GET","status":200,"ip":"127.0.0.1","referer":"","userAgent":"curl","meta":{{}}}}"#,
        id, created
    )
}

#[test]
fn log_list_decodes_items() {
    let c = Client::new("http://base");
    let body = format!(
        r#"{{"page":1,"perPage":100,"totalItems":1,"items":[{}]}}"#,
        log_item("l1", r#""2022-01-01T10:00:00.123Z""#)
    );
    let mut t = script(vec![(200, body.as_str())]);
    let page = c.logs().list().call(&mut t).unwrap();
    assert_eq!(page.total_items, 1);
    assert_eq!(page.items.len(), 1);
    assert_eq!(page.items[0].id, "l1");
    assert_eq!(page.items[0].method, "GET");
    assert_eq!(page.items[0].ip.as_deref(), Some("127.0.0.1"));
    assert_eq!(page.items[0].user_agent, "curl");
    assert!(page.items[0].meta.is_empty());
}

#[test]
fn log_list_reports_the_exact_path_of_a_bad_item_field() {
    let c = Client::new("http://base");
    let body = format!(
        r#"{{"page":1,"perPage":100,"totalItems":3,"items":[{},{},{}]}}"#,
        log_item("l0", r#""2022-01-01T10:00:00.123Z""#),
        log_item("l1", r#""2022-01-01T10:00:00.123Z""#),
        log_item("l2", "true"),
    );
    let mut t = script(vec![(200, body.as_str())]);
    match c.logs().list().call(&mut t).unwrap_err() {
        ApiError::Decode { path, message, .. } => {
            assert_eq!(path, "items[2].created");
            assert_eq!(message, "expected a datetime string");
        },
        other => panic!("expected Decode, got {:?}", other),
    }
}

#[test]
fn log_list_rejects_a_timestamp_that_is_not_a_datetime() {
    let c = Client::new("http://base");
    let body = format!(
        r#"{{"page":1,"perPage":100,"totalItems":1,"items":[{}]}}"#,
        log_item("l0", r#""yesterday""#),
    );
    let mut t = script(vec![(200, body.as_str())]);
    match c.logs().list().call(&mut t).unwrap_err() {
        ApiError::Decode { path, .. } => assert_eq!(path, "items[0].created"),
        other => panic!("expected Decode, got {:?}", other),
    }
}

#[test]
fn log_view_decodes_an_entry() {
    let c = Client::new("http://base");
    let body = log_item("l7", r#""2022-01-01T10:00:00.123Z""#);
    let mut t = script(vec![(200, body.as_str())]);
    let entry = c.logs().view("l7").call(&mut t).unwrap();
    assert_eq!(entry.id, "l7");
    assert_eq!(t.sent[0].url, "http://base/api/logs/requests/l7");
}

#[test]
fn log_view_reports_a_missing_field_at_the_root() {
    let c = Client::new("http://base");
    let mut t = script(vec![(200, r#"{"id":"l7"}"#)]);
    match c.logs().view("l7").call(&mut t).unwrap_err() {
        ApiError::Decode { path, message, .. } => {
            assert_eq!(path, ".");
            assert_eq!(message, "missing field `created`");
        },
        other => panic!("expected Decode, got {:?}", other),
    }
}

#[test]
fn log_meta_values_must_be_strings() {
    let c = Client::new("http://base");
    let body = r#"{"id":"l1","created":"2022-01-01T10:00:00.123Z","updated":"2022-01-01T10:00:00.123Z","url":"/","method":"GET","status":200,"ip":null,"referer":"","userAgent":"","meta":{"k":1}}"#;
    let mut t = script(vec![(200, body)]);
    match c.logs().view("l1").call(&mut t).unwrap_err() {
        ApiError::Decode { path, message, .. } => {
            assert_eq!(path, "meta.k");
            assert_eq!(message, "expected a string");
        },
        other => panic!("expected Decode, got {:?}", other),
    }
}

#[test]
fn statistics_decode_the_series() {
    let c = Client::new("http://base");
    let body = r#"[{"total":4,"date":"2022-06-01 00:00:00.000Z"},{"total":9,"date":"2022-06-02 00:00:00.000Z"}]"#;
    let mut t = script(vec![(200, body)]);
    let pts = c.logs().statistics().call(&mut t).unwrap();
    assert_eq!(pts.len(), 2);
    assert_eq!(pts[0].total, 4);
    assert_eq!(pts[1].date, "2022-06-02 00:00:00.000Z");
    assert_eq!(t.sent[0].url, "http://base/api/logs/requests/stats");
}

#[test]
fn statistics_report_the_path_of_a_bad_point() {
    let c = Client::new("http://base");
    let body = r#"[{"total":4,"date":"d"},{"total":"x","date":"d"}]"#;
    let mut t = script(vec![(200, body)]);
    match c.logs().statistics().call(&mut t).unwrap_err() {
        ApiError::Decode { path, message, .. } => {
            assert_eq!(path, "[1].total");
            assert_eq!(message, "expected an integer");
        },
        other => panic!("expected Decode, got {:?}", other),
    }
}

#[test]
fn statistics_filter_is_the_only_query_pair() {
    let c = Client::new("http://base");
    let mut t = script(vec![(200, "[]")]);
    c.logs().statistics().filter("status=200").call(&mut t).unwrap();
    assert_eq!(
        t.sent[0].query,
        vec![("filter".to_string(), "status=200".to_string())]
    );
}

#[test]
fn log_list_setters_leave_the_original_unchanged() {
    let c = Client::new("http://base");
    let logs = c.logs();
    let base = logs.list();
    let derived = base.filter("status=200").sort("-created").page(2).per_page(9);
    assert_eq!(base.filter, None);
    assert_eq!(base.sort, None);
    assert_eq!(base.page, 1);
    assert_eq!(base.per_page, 100);
    assert_eq!(derived.filter.as_deref(), Some("status=200"));
    assert_eq!(derived.sort.as_deref(), Some("-created"));
    assert_eq!(derived.page, 2);
    assert_eq!(derived.per_page, 9);
}

#[test]
fn log_list_query_puts_sort_before_filter() {
    let c = Client::new("http://base");
    let body = r#"{"page":1,"perPage":100,"totalItems":0,"items":[]}"#;
    let mut t = script(vec![(200, body)]);
    c.logs()
        .list()
        .filter("status=200")
        .sort("-created")
        .call(&mut t)
        .unwrap();
    assert_eq!(
        t.sent[0].query,
        vec![
            ("sort".to_string(), "-created".to_string()),
            ("filter".to_string(), "status=200".to_string()),
            ("perPage".to_string(), "100".to_string()),
            ("page".to_string(), "1".to_string()),
        ]
    );
}

#[test]
fn log_list_reports_non_success_statuses() {
    let c = Client::new("http://base");
    let mut t = script(vec![(500, "boom")]);
    match c.logs().list().call(&mut t).unwrap_err() {
        ApiError::Http { status, url, body_snippet } => {
            assert_eq!(status, 500);
            assert_eq!(url, "http://base/api/logs/requests");
            assert_eq!(body_snippet, "boom");
        },
        other => panic!("expected Http, got {:?}", other),
    }
}
