use recordbase::client::Client;
use recordbase::error::ApiError;
use recordbase::httpc::ScriptTransport;

fn script(responses: Vec<(u16, &str)>) -> ScriptTransport {
    ScriptTransport::new(responses.into_iter().map(|(s, b)| (s, b.to_string())).collect())
}

fn collection_body(name: &str) -> String {
    format!(
        r#"{{"id":"c1","created":"2022-01-01T10:00:00.123Z","type":"base","updated":"2022-01-02T10:00:00.123Z","name":"{}","schema":[{{"system":false,"id":"f1","name":"title","type":"text","required":true,"unique":false}}]}}"#,
        name
    )
}

#[test]
fn collection_view_decodes_the_schema() {
    let c = Client::new("http://base");
    let body = collection_body("posts");
    let mut t = script(vec![(200, body.as_str())]);
    let col = c.collections().view("posts").call(&mut t).unwrap();
    assert_eq!(col.id, "c1");
    assert_eq!(col.name, "posts");
    assert_eq!(col.kind, "base");
    assert_eq!(col.schema.len(), 1);
    assert_eq!(col.schema[0].name, "title");
    assert_eq!(col.schema[0].kind, "text");
    assert!(col.schema[0].required);
    assert!(!col.schema[0].unique);
    assert_eq!(t.sent[0].url, "http://base/api/collections/posts");
}

#[test]
fn collection_view_reports_a_bad_schema_entry() {
    let c = Client::new("http://base");
    let body = r#"{"id":"c1","created":"2022-01-01T10:00:00.123Z","type":"base","updated":"2022-01-02T10:00:00.123Z","name":"posts","schema":[{"system":false,"id":"f1","name":"title","type":"text","required":true}]}"#;
    let mut t = script(vec![(200, body)]);
    match c.collections().view("posts").call(&mut t).unwrap_err() {
        ApiError::Decode { path, message, .. } => {
            assert_eq!(path, "schema[0]");
            assert_eq!(message, "missing field `unique`");
        },
        other => panic!("expected Decode, got {:?}", other),
    }
}

#[test]
fn collection_timestamps_must_be_datetimes() {
    let c = Client::new("http://base");
    let body = r#"{"id":"c1","created":"not a date","type":"base","updated":"2022-01-02T10:00:00.123Z","name":"posts","schema":[]}"#;
    let mut t = script(vec![(200, body)]);
    match c.collections().view("posts").call(&mut t).unwrap_err() {
        ApiError::Decode { path, message, .. } => {
            assert_eq!(path, "created");
            assert_eq!(message, "expected a datetime string");
        },
        other => panic!("expected Decode, got {:?}", other),
    }
}

#[test]
fn collection_list_decodes_a_page() {
    let c = Client::new("http://base");
    let body = format!(
        r#"{{"page":1,"perPage":100,"totalItems":1,"items":[{}]}}"#,
        collection_body("posts")
    );
    let mut t = script(vec![(200, body.as_str())]);
    let page = c.collections().list().call(&mut t).unwrap();
    assert_eq!(page.total_items, 1);
    assert_eq!(page.items[0].name, "posts");
}

#[test]
fn collection_list_uses_snake_case_paging_keys() {
    let c = Client::new("http://base");
    let body = r#"{"page":2,"perPage":5,"totalItems":0,"items":[]}"#;
    let mut t = script(vec![(200, body)]);
    c.collections().list().page(2).per_page(5).call(&mut t).unwrap();
    assert_eq!(
        t.sent[0].query,
        vec![
            ("per_page".to_string(), "5".to_string()),
            ("page".to_string(), "2".to_string()),
        ]
    );
    assert_eq!(t.sent[0].url, "http://base/api/collections");
}

#[test]
fn collection_list_setters_leave_the_original_unchanged() {
    let c = Client::new("http://base");
    let cols = c.collections();
    let base = cols.list();
    let derived = base
        .filter("type='base'".to_string())
        .sort("-created".to_string())
        .expand("x".to_string())
        .page(3)
        .per_page(8);
    assert_eq!(base.filter, None);
    assert_eq!(base.sort, None);
    assert_eq!(base.expand, None);
    assert_eq!(base.page, 1);
    assert_eq!(base.per_page, 100);
    assert_eq!(derived.filter.as_deref(), Some("type='base'"));
    assert_eq!(derived.sort.as_deref(), Some("-created"));
    assert_eq!(derived.expand.as_deref(), Some("x"));
    assert_eq!(derived.page, 3);
    assert_eq!(derived.per_page, 8);
}

#[test]
fn create_builder_starts_without_details() {
    let c = Client::new("http://base");
    let cols = c.collections();
    let b = cols.create("posts");
    assert_eq!(b.collection_name, "posts");
    assert!(b.collection_details.is_none());
}

#[test]
fn collection_view_404_is_an_http_error() {
    let c = Client::new("http://base");
    let mut t = script(vec![(404, r#"{"message":"missing"}"#)]);
    match c.collections().view("ghost").call(&mut t).unwrap_err() {
        ApiError::Http { status, url, body_snippet } => {
            assert_eq!(status, 404);
            assert_eq!(url, "http://base/api/collections/ghost");
            assert_eq!(body_snippet, r#"{"message":"missing"}"#);
        },
        other => panic!("expected Http, got {:?}", other),
    }
}
