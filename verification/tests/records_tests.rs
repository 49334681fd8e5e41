use recordbase::client::Client;
use recordbase::error::{ApiError, RecordViewError};
use recordbase::httpc::ScriptTransport;
use recordbase::json::JsonValue;

fn script(responses: Vec<(u16, String)>) -> ScriptTransport {
    ScriptTransport::new(responses)
}

fn list_body(page: i32, per_page: i32, total: i32, count: i32) -> String {
    let mut items = String::new();
    for i in 0..count {
        if i > 0 {
            items.push(',');
        }
        items.push_str(&format!(r#"{{"id":"r{}"}}"#, i));
    }
    format!(
        r#"{{"page":{},"perPage":{},"totalItems":{},"items":[{}]}}"#,
        page, per_page, total, items
    )
}

#[test]
fn record_view_not_found_names_the_record() {
    let c = Client::new("http://base");
    let mut t = script(vec![(404, r#"{"message":"not found"}"#.to_string())]);
    let err = c.records("posts").view("xyz").call(&mut t).unwrap_err();
    match err {
        RecordViewError::NotFound { collection, identifier, body_snippet } => {
            assert_eq!(collection, "posts");
            assert_eq!(identifier, "xyz");
            assert_eq!(body_snippet, r#"{"message":"not found"}"#);
        },
        other => panic!("expected NotFound, got {:?}", other),
    }
}

#[test]
fn record_view_returns_the_document() {
    let c = Client::new("http://base");
    let mut t = script(vec![(200, r#"{"id":"a1","n":3}"#.to_string())]);
    let v = c.records("posts").view("a1").call(&mut t).unwrap();
    assert_eq!(
        v,
        JsonValue::Obj(vec![
            ("id".to_string(), JsonValue::Str("a1".to_string())),
            ("n".to_string(), JsonValue::Int(3)),
        ])
    );
    assert_eq!(t.sent[0].url, "http://base/api/collections/posts/records/a1");
}

#[test]
fn record_view_other_status_is_an_http_error() {
    let c = Client::new("http://base");
    let mut t = script(vec![(500, "boom".to_string())]);
    match c.records("posts").view("a1").call(&mut t).unwrap_err() {
        RecordViewError::Http { status, url, body_snippet } => {
            assert_eq!(status, 500);
            assert_eq!(url, "http://base/api/collections/posts/records/a1");
            assert_eq!(body_snippet, "boom");
        },
        other => panic!("expected Http, got {:?}", other),
    }
}

#[test]
fn record_view_unparseable_success_body() {
    let c = Client::new("http://base");
    let mut t = script(vec![(200, "{not json".to_string())]);
    match c.records("posts").view("a1").call(&mut t).unwrap_err() {
        RecordViewError::Decode { path, body_snippet, .. } => {
            assert_eq!(path, ".");
            assert_eq!(body_snippet, "{not json");
        },
        other => panic!("expected Decode, got {:?}", other),
    }
}

#[test]
fn destroy_succeeds_only_on_204() {
    let c = Client::new("http://base");
    let mut t = script(vec![(204, String::new())]);
    assert!(c.records("posts").destroy("a1").call(&mut t).is_ok());
}

#[test]
fn destroy_with_200_and_empty_body_is_a_failure() {
    let c = Client::new("http://base");
    let mut t = script(vec![(200, String::new())]);
    match c.records("posts").destroy("a1").call(&mut t).unwrap_err() {
        ApiError::Http { status, url, body_snippet } => {
            assert_eq!(status, 200);
            assert_eq!(url, "http://base/api/collections/posts/records/a1");
            assert_eq!(body_snippet, "");
        },
        other => panic!("expected Http, got {:?}", other),
    }
}

#[test]
fn list_decodes_a_page() {
    let c = Client::new("http://base");
    let mut t = script(vec![(200, list_body(1, 100, 2, 2))]);
    let page = c.records("posts").list().call(&mut t).unwrap();
    assert_eq!(page.page, 1);
    assert_eq!(page.per_page, 100);
    assert_eq!(page.total_items, 2);
    assert_eq!(page.items.len(), 2);
    assert_eq!(
        page.items[0],
        JsonValue::Obj(vec![("id".to_string(), JsonValue::Str("r0".to_string()))])
    );
}

#[test]
fn list_reports_non_success_statuses() {
    let c = Client::new("http://base");
    let mut t = script(vec![(403, "denied".to_string())]);
    match c.records("posts").list().call(&mut t).unwrap_err() {
        ApiError::Http { status, url, body_snippet } => {
            assert_eq!(status, 403);
            assert_eq!(url, "http://base/api/collections/posts/records");
            assert_eq!(body_snippet, "denied");
        },
        other => panic!("expected Http, got {:?}", other),
    }
}

#[test]
fn list_reports_the_broken_envelope_field() {
    let c = Client::new("http://base");
    let body = r#"{"page":1,"perPage":100,"totalItems":0,"items":7}"#;
    let mut t = script(vec![(200, body.to_string())]);
    match c.records("posts").list().call(&mut t).unwrap_err() {
        ApiError::Decode { path, message, .. } => {
            assert_eq!(path, "items");
            assert_eq!(message, "expected an array");
        },
        other => panic!("expected Decode, got {:?}", other),
    }
}

#[test]
fn body_snippet_is_truncated_to_2000_characters() {
    let c = Client::new("http://base");
    let long = "x".repeat(2500);
    let mut t = script(vec![(200, long)]);
    match c.records("posts").list().call(&mut t).unwrap_err() {
        ApiError::Decode { body_snippet, .. } => {
            assert_eq!(body_snippet.chars().count(), 2000);
        },
        other => panic!("expected Decode, got {:?}", other),
    }
}

#[test]
fn list_builder_setters_leave_the_original_unchanged() {
    let c = Client::new("http://base");
    let records = c.records("posts");
    let base = records.list();
    let derived = base.filter("a=1").sort("-created").expand("rel").page(4).per_page(7);
    assert_eq!(base.filter, None);
    assert_eq!(base.sort, None);
    assert_eq!(base.expand, None);
    assert_eq!(base.page, 1);
    assert_eq!(base.per_page, 100);
    assert_eq!(derived.filter.as_deref(), Some("a=1"));
    assert_eq!(derived.sort.as_deref(), Some("-created"));
    assert_eq!(derived.expand.as_deref(), Some("rel"));
    assert_eq!(derived.page, 4);
    assert_eq!(derived.per_page, 7);
}

#[test]
fn list_query_is_ordered_and_rendered_in_decimal() {
    let c = Client::new("http://base");
    let mut t = script(vec![(200, list_body(3, 50, 0, 0))]);
    c.records("posts")
        .list()
        .filter("done=true")
        .sort("-created")
        .page(3)
        .per_page(50)
        .call(&mut t)
        .unwrap();
    let q: Vec<(String, String)> = t.sent[0].query.clone();
    assert_eq!(
        q,
        vec![
            ("filter".to_string(), "done=true".to_string()),
            ("sort".to_string(), "-created".to_string()),
            ("perPage".to_string(), "50".to_string()),
            ("page".to_string(), "3".to_string()),
        ]
    );
}

#[test]
fn get_all_fetches_ceil_n_over_p_pages() {
    let c = Client::new("http://base");
    let mut t = script(vec![
        (200, list_body(1, 1000, 2500, 1000)),
        (200, list_body(2, 1000, 2500, 1000)),
        (200, list_body(3, 1000, 2500, 500)),
    ]);
    let items = c.records("posts").get_all(&mut t).unwrap();
    assert_eq!(items.len(), 2500);
    assert_eq!(t.sent.len(), 3);
    for (i, req) in t.sent.iter().enumerate() {
        assert!(req
            .query
            .iter()
            .any(|(k, v)| k == "page" && *v == (i + 1).to_string()));
        assert!(req.query.iter().any(|(k, v)| k == "perPage" && v == "1000"));
    }
}

#[test]
fn get_all_with_one_page_fetches_once() {
    let c = Client::new("http://base");
    let mut t = script(vec![(200, list_body(1, 1000, 3, 3))]);
    let items = c.records("posts").get_all(&mut t).unwrap();
    assert_eq!(items.len(), 3);
    assert_eq!(t.sent.len(), 1);
}

#[test]
fn get_all_of_an_empty_collection_fetches_once() {
    let c = Client::new("http://base");
    let mut t = script(vec![(200, list_body(1, 1000, 0, 0))]);
    let items = c.records("posts").get_all(&mut t).unwrap();
    assert_eq!(items.len(), 0);
    assert_eq!(t.sent.len(), 1);
}

#[test]
fn get_all_reports_a_total_that_never_converges() {
    let c = Client::new("http://base");
    let mut t = script(vec![(200, list_body(1, 1000, 5, 3))]);
    match c.records("posts").get_all(&mut t).unwrap_err() {
        ApiError::Decode { path, .. } => assert_eq!(path, "totalItems"),
        other => panic!("expected Decode, got {:?}", other),
    }
}

#[test]
fn create_decodes_the_acknowledgment() {
    let c = Client::new("http://base");
    let body = r#"{"@collectionName":"posts","id":"r9","created":"c","updated":"u"}"#;
    let mut t = script(vec![(200, body.to_string())]);
    let record = JsonValue::Obj(vec![("title".to_string(), JsonValue::Str("hi".to_string()))]);
    let ack = c.records("posts").create(record).call(&mut t).unwrap();
    assert_eq!(ack.id, "r9");
    assert_eq!(ack.created, "c");
    assert_eq!(ack.updated, "u");
    assert_eq!(ack.collection_name.as_deref(), Some("posts"));
    assert_eq!(ack.collection_id, None);
    assert_eq!(t.sent[0].body.as_deref(), Some(r#"{"title":"hi"}"#));
}

#[test]
fn update_echoes_the_callers_record() {
    let c = Client::new("http://base");
    let body = r#"{"id":"r9","created":"c","updated":"u"}"#;
    let mut t = script(vec![(200, body.to_string())]);
    let record = JsonValue::Obj(vec![("title".to_string(), JsonValue::Str("hi".to_string()))]);
    let echoed = c.records("posts").update("r9", record).call(&mut t).unwrap();
    assert_eq!(
        echoed,
        JsonValue::Obj(vec![("title".to_string(), JsonValue::Str("hi".to_string()))])
    );
    assert_eq!(t.sent[0].url, "http://base/api/collections/posts/records/r9");
}

#[test]
fn update_with_a_bad_acknowledgment_fails() {
    let c = Client::new("http://base");
    let mut t = script(vec![(200, r#"{"created":"c","updated":"u"}"#.to_string())]);
    let record = JsonValue::Null;
    match c.records("posts").update("r9", record).call(&mut t).unwrap_err() {
        ApiError::Decode { path, message, .. } => {
            assert_eq!(path, ".");
            assert_eq!(message, "missing field `id`");
        },
        other => panic!("expected Decode, got {:?}", other),
    }
}

#[test]
fn create_reports_non_success_statuses() {
    let c = Client::new("http://base");
    let mut t = script(vec![(403, "denied".to_string())]);
    let record = JsonValue::Null;
    match c.records("posts").create(record).call(&mut t).unwrap_err() {
        ApiError::Http { status, url, body_snippet } => {
            assert_eq!(status, 403);
            assert_eq!(url, "http://base/api/collections/posts/records");
            assert_eq!(body_snippet, "denied");
        },
        other => panic!("expected Http, got {:?}", other),
    }
}

#[test]
fn update_reports_non_success_statuses() {
    let c = Client::new("http://base");
    let mut t = script(vec![(500, "boom".to_string())]);
    let record = JsonValue::Null;
    match c.records("posts").update("r9", record).call(&mut t).unwrap_err() {
        ApiError::Http { status, url, body_snippet } => {
            assert_eq!(status, 500);
            assert_eq!(url, "http://base/api/collections/posts/records/r9");
            assert_eq!(body_snippet, "boom");
        },
        other => panic!("expected Http, got {:?}", other),
    }
}

#[test]
fn get_all_stops_at_the_first_failing_page() {
    let c = Client::new("http://base");
    let mut t = script(vec![
        (200, list_body(1, 1000, 1500, 1000)),
        (500, "boom".to_string()),
    ]);
    match c.records("posts").get_all(&mut t).unwrap_err() {
        ApiError::Http { status, .. } => assert_eq!(status, 500),
        other => panic!("expected Http, got {:?}", other),
    }
    assert_eq!(t.sent.len(), 2);
}
