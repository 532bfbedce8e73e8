use fluent_playground::mapper::ExternalRecord;
use fluent_playground::mapper::FileEntry;
use fluent_playground::mapper::Snippet;
use fluent_playground::mapper::to_external;
use fluent_playground::routes::ProviderError;
use fluent_playground::routes::bad_request_reply;
use fluent_playground::routes::error_body;
use fluent_playground::routes::gist_reply;
use fluent_playground::routes::index_reply;
use fluent_playground::routes::serialization_error_reply;
use fluent_playground::routes::snippet_body;

fn entry(name: &str, content: &str) -> FileEntry {
    FileEntry { name: name.to_string(), content: content.to_string() }
}

#[test]
fn index_names_the_service_and_its_version() {
    let r = index_reply("fluent-playground", "0.1.0");
    assert_eq!(r.status, 200);
    assert_eq!(r.body, "{\"name\":\"fluent-playground\",\"version\":\"0.1.0\"}");
}

#[test]
fn created_record_comes_back_with_the_assigned_id() {
    let s = Snippet {
        id: None,
        messages: "hello = World".to_string(),
        variables: "{}".to_string(),
        setup: "{}".to_string(),
    };
    let record = to_external(&s);
    assert_eq!(record.files.len(), 3);
    let stored = ExternalRecord { id: Some("abc123".to_string()), ..record };
    let reply = gist_reply(Ok(stored));
    assert_eq!(reply.status, 200);
    assert_eq!(
        reply.body,
        "{\"id\":\"abc123\",\"messages\":\"hello = World\",\"variables\":{},\"setup\":{}}"
    );
}

#[test]
fn fetched_record_without_setup_is_a_structured_bad_gateway() {
    let record = ExternalRecord {
        id: Some("abc123".to_string()),
        description: None,
        public: Some(true),
        files: vec![entry("playground.ftl", "hello = World"), entry("playground.json", "{}")],
    };
    let reply = gist_reply(Ok(record));
    assert_eq!(reply.status, 502);
    assert_eq!(reply.body, "{\"error\":\"missing file: setup.json\"}");
}

#[test]
fn fetched_record_with_malformed_variables_is_a_structured_bad_gateway() {
    let record = ExternalRecord {
        id: Some("abc123".to_string()),
        description: None,
        public: Some(true),
        files: vec![
            entry("playground.ftl", "hello = World"),
            entry("playground.json", "not json"),
            entry("setup.json", "{}"),
        ],
    };
    let reply = gist_reply(Ok(record));
    assert_eq!(reply.status, 502);
    assert_eq!(reply.body, "{\"error\":\"malformed JSON in file: playground.json\"}");
}

#[test]
fn provider_not_found_is_a_404() {
    let reply = gist_reply(Err(ProviderError::NotFound));
    assert_eq!(reply.status, 404);
    assert_eq!(reply.body, "{\"error\":\"gist not found\"}");
}

#[test]
fn provider_unavailable_is_a_502() {
    let reply = gist_reply(Err(ProviderError::Unavailable));
    assert_eq!(reply.status, 502);
    assert_eq!(reply.body, "{\"error\":\"gist provider unavailable\"}");
}

#[test]
fn snippet_body_with_no_id_writes_null() {
    let s = Snippet {
        id: None,
        messages: "hello = World".to_string(),
        variables: "{}".to_string(),
        setup: "{}".to_string(),
    };
    assert_eq!(
        snippet_body(&s),
        "{\"id\":null,\"messages\":\"hello = World\",\"variables\":{},\"setup\":{}}"
    );
}

#[test]
fn snippet_body_escapes_the_message_text() {
    let s = Snippet {
        id: Some("x\"y".to_string()),
        messages: "line1\nline2 \"quoted\" back\\slash".to_string(),
        variables: "{}".to_string(),
        setup: "{}".to_string(),
    };
    assert_eq!(
        snippet_body(&s),
        "{\"id\":\"x\\\"y\",\"messages\":\"line1\\u000aline2 \\\"quoted\\\" back\\\\slash\",\"variables\":{},\"setup\":{}}"
    );
}

#[test]
fn error_body_escapes_the_message() {
    assert_eq!(error_body("a\"b"), "{\"error\":\"a\\\"b\"}");
}

#[test]
fn bad_request_is_a_400() {
    let reply = bad_request_reply("invalid request body");
    assert_eq!(reply.status, 400);
    assert_eq!(reply.body, "{\"error\":\"invalid request body\"}");
}

#[test]
fn serialization_error_is_the_fixed_500() {
    let reply = serialization_error_reply();
    assert_eq!(reply.status, 500);
    assert_eq!(reply.body, "{\"error\": \"Error serializing response\"}");
}
