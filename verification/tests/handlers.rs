use redirection_service::database::memory::MemoryStorage;
use redirection_service::database::Database;
use redirection_service::handlers::{create_url, get_url};
use redirection_service::key_generator::counter::CounterKeyGenerator;
use redirection_service::state::AppState;
use redirection_service::task_sender::memory::{FailingTaskSender, MemoryTaskSender};
use redirection_service::task_sender::EncodingTaskSender;

#[test]
fn test_create_url() {
    let db_layer = MemoryStorage::new();
    let key_generator = CounterKeyGenerator::starting_at(12345678);
    let task_sender = EncodingTaskSender::new(MemoryTaskSender::new());
    let mut state = AppState::new(db_layer, task_sender, key_generator);

    let body = br#"{"url": "http://example.com"}"#.to_vec();
    let response = create_url(
        &mut state,
        Some("http".to_string()),
        Some("some-host".to_string()),
        &body,
    );

    assert!(response.is_ok());
    let resp = response.unwrap();
    assert_eq!(resp.0, 201);
    assert_eq!(resp.1, "http://some-host/12345678");
}

#[test]
fn test_create_url_bad_req() {
    let db_layer = MemoryStorage::new();
    let key_generator = CounterKeyGenerator::new();
    let task_sender = EncodingTaskSender::new(MemoryTaskSender::new());
    let mut state = AppState::new(db_layer, task_sender, key_generator);

    // Malformed JSON body
    let body = br#"{"url": "http://example.com"#.to_vec();
    let response = create_url(
        &mut state,
        Some("http".to_string()),
        Some("some-host".to_string()),
        &body,
    );

    assert_eq!(response.unwrap_err().0, 400);
}

#[test]
fn test_get_url() {
    let mut db_layer = MemoryStorage::new();
    db_layer
        .insert_key("12345678".to_string(), "http://example.com".to_string())
        .unwrap();
    let task_sender = EncodingTaskSender::new(MemoryTaskSender::new());
    let mut state = AppState::new(db_layer, task_sender, CounterKeyGenerator::new());

    let response = get_url(&mut state, &"12345678".to_string());

    assert!(response.is_ok());
    let resp = response.unwrap();
    assert_eq!(resp.0, 308);
    assert_eq!(resp.1, "http://example.com");
}

#[test]
fn test_get_url_err_task() {
    let mut db_layer = MemoryStorage::new();
    db_layer
        .insert_key("12345678".to_string(), "http://example.com".to_string())
        .unwrap();
    let task_sender = EncodingTaskSender::new(FailingTaskSender::new());
    let mut state = AppState::new(db_layer, task_sender, CounterKeyGenerator::new());

    let response = get_url(&mut state, &"12345678".to_string());

    assert!(response.is_ok());
    let resp = response.unwrap();
    assert_eq!(resp.0, 308);
    assert_eq!(resp.1, "http://example.com");
}

#[test]
fn create_then_redirect_returns_submitted_url() {
    let db_layer = MemoryStorage::new();
    let key_generator = CounterKeyGenerator::new();
    let task_sender = EncodingTaskSender::new(MemoryTaskSender::new());
    let mut state = AppState::new(db_layer, task_sender, key_generator);

    let body = br#"{"url":"https://example.org/some/long/path"}"#.to_vec();
    let resp = create_url(&mut state, None, None, &body).unwrap();
    assert_eq!(resp.0, 201);
    // Scheme and host fall back to the documented defaults.
    let prefix = "http://localhost/";
    assert!(resp.1.starts_with(prefix));
    let key = resp.1[prefix.len()..].to_string();
    assert_eq!(key, "0");

    let redirect = get_url(&mut state, &key).unwrap();
    assert_eq!(redirect.0, 308);
    assert_eq!(redirect.1, "https://example.org/some/long/path");
}

#[test]
fn create_bad_body_consumes_nothing() {
    let db_layer = MemoryStorage::new();
    let key_generator = CounterKeyGenerator::new();
    let task_sender = EncodingTaskSender::new(MemoryTaskSender::new());
    let mut state = AppState::new(db_layer, task_sender, key_generator);

    let truncated = br#"{"url": "http://e"#.to_vec();
    let err = create_url(&mut state, None, None, &truncated).unwrap_err();
    assert_eq!(err.0, 400);

    let no_url_member = br#"{"link":"http://example.com"}"#.to_vec();
    let err = create_url(&mut state, None, None, &no_url_member).unwrap_err();
    assert_eq!(err.0, 400);

    // No key was drawn and nothing was stored by the rejected requests: the
    // next create still receives the generator's first key.
    let body = br#"{"url":"http://example.com"}"#.to_vec();
    let resp = create_url(&mut state, None, None, &body).unwrap();
    assert_eq!(resp.1, "http://localhost/0");
    // Nothing was dispatched either.
    assert!(state.task_sender.transport.tasks().is_empty());
}

#[test]
fn create_oversized_body_rejected() {
    let db_layer = MemoryStorage::new();
    let key_generator = CounterKeyGenerator::new();
    let task_sender = EncodingTaskSender::new(MemoryTaskSender::new());
    let mut state = AppState::new(db_layer, task_sender, key_generator);

    // A syntactically valid body one byte over the cap is still rejected.
    let padding = "x".repeat(5 * 1024);
    let body = format!(r#"{{"url":"http://example.com","pad":"{}"}}"#, padding).into_bytes();
    assert!(body.len() > 5 * 1024);
    let err = create_url(&mut state, None, None, &body).unwrap_err();
    assert_eq!(err.0, 400);
}

#[test]
fn redirect_unknown_key_not_found() {
    let db_layer = MemoryStorage::new();
    let task_sender = EncodingTaskSender::new(MemoryTaskSender::new());
    let mut state = AppState::new(db_layer, task_sender, CounterKeyGenerator::new());

    let err = get_url(&mut state, &"nokey".to_string()).unwrap_err();
    assert_eq!(err.0, 404);
    assert_eq!(err.1, "nokey");
    // No visit event is dispatched for a failed lookup.
    assert!(state.task_sender.transport.tasks().is_empty());
}

#[test]
fn redirect_dispatches_one_event() {
    let mut db_layer = MemoryStorage::new();
    db_layer
        .insert_key("12345678".to_string(), "http://example.com".to_string())
        .unwrap();
    let task_sender = EncodingTaskSender::new(MemoryTaskSender::new());
    let mut state = AppState::new(db_layer, task_sender, CounterKeyGenerator::new());

    let resp = get_url(&mut state, &"12345678".to_string()).unwrap();
    assert_eq!(resp.0, 308);

    let tasks = state.task_sender.transport.tasks();
    assert_eq!(tasks.len(), 1);
    let bytes = &tasks[0];
    // The record sits in field 1 of the task message and carries the key as
    // its own field 1.
    assert_eq!(bytes[0], 10);
    assert_eq!(bytes[1] as usize, bytes.len() - 2);
    assert_eq!(bytes[2], 10);
    assert_eq!(bytes[3], 8);
    assert_eq!(&bytes[4..12], b"12345678");
}
