use user_service::keys::{new_object_key, object_key};
use user_service::republish::{
    advance, has_http_prefix, is_success_status, public_url, start, Event, Republish,
    StorageConfig, UploadResult,
};

fn bucket_config() -> StorageConfig {
    StorageConfig { bucket: "media".to_string(), public_base: None }
}

fn based_config() -> StorageConfig {
    StorageConfig {
        bucket: "media".to_string(),
        public_base: Some("https://cdn.example.com".to_string()),
    }
}

fn failure_message(state: &Republish) -> Option<String> {
    match state {
        Republish::Done { result: UploadResult::Failed { message } } => Some(message.clone()),
        _ => None,
    }
}

fn is_uuid_text(s: &str) -> bool {
    s.len() == 36
        && s.chars().enumerate().all(|(i, c)| {
            if i == 8 || i == 13 || i == 18 || i == 23 {
                c == '-'
            } else {
                c.is_ascii_digit() || ('a'..='f').contains(&c)
            }
        })
}

#[test]
fn http_prefix_is_checked() {
    assert!(has_http_prefix("http://example.com/a.png"));
    assert!(has_http_prefix("https://example.com"));
    assert!(has_http_prefix("http"));
    assert!(has_http_prefix("httpfoo"));
    assert!(!has_http_prefix("not-a-url"));
    assert!(!has_http_prefix("htt"));
    assert!(!has_http_prefix(""));
    assert!(!has_http_prefix("ftp://example.com"));
    assert!(!has_http_prefix("HTTP://example.com"));
}

#[test]
fn success_statuses_are_the_2xx_range() {
    assert!(is_success_status(200));
    assert!(is_success_status(204));
    assert!(is_success_status(299));
    assert!(!is_success_status(199));
    assert!(!is_success_status(300));
    assert!(!is_success_status(404));
    assert!(!is_success_status(500));
}

#[test]
fn object_key_joins_prefix_id_and_extension() {
    assert_eq!(object_key("abc", "png"), "uploads/abc.png");
    assert_eq!(object_key("", ""), "uploads/.");
}

#[test]
fn public_url_uses_configured_base() {
    assert_eq!(
        public_url(&based_config(), "uploads/x.png"),
        "https://cdn.example.com/uploads/x.png"
    );
}

#[test]
fn public_url_falls_back_to_bucket_name() {
    assert_eq!(
        public_url(&bucket_config(), "uploads/x.png"),
        "https://media.s3.amazonaws.com/uploads/x.png"
    );
}

#[test]
fn invalid_url_fails_without_fetching() {
    let state = start("not-a-url".to_string());
    assert_eq!(failure_message(&state), Some("Invalid URL".to_string()));
}

#[test]
fn valid_url_starts_with_a_fetch() {
    let state = start("http://example.com/a.png".to_string());
    assert_eq!(state, Republish::Fetch { url: "http://example.com/a.png".to_string() });
}

#[test]
fn png_is_stored_byte_for_byte() {
    let config = based_config();
    let body: Vec<u8> = vec![0x89, b'P', b'N', b'G', 0, 255, 13, 10];
    let s0 = start("http://example.com/images/logo.png".to_string());
    let s1 = advance(s0, Event::Responded { status: 200 }, &config);
    assert_eq!(s1, Republish::ReadBody { url: "http://example.com/images/logo.png".to_string() });
    let s2 = advance(s1, Event::Received { body: body.clone() }, &config);
    let key = match &s2 {
        Republish::Store { key, body: stored } => {
            assert_eq!(stored, &body);
            key.clone()
        }
        other => panic!("expected a store, got {:?}", other),
    };
    assert!(key.starts_with("uploads/"));
    assert!(key.ends_with(".png"));
    assert!(is_uuid_text(&key["uploads/".len()..key.len() - ".png".len()]));
    let s3 = advance(s2, Event::Stored, &config);
    assert_eq!(
        s3,
        Republish::Done {
            result: UploadResult::Uploaded { file_url: format!("https://cdn.example.com/{}", key) }
        }
    );
}

#[test]
fn not_found_fails_and_stores_nothing() {
    let config = bucket_config();
    let s0 = start("http://example.com/missing.png".to_string());
    let s1 = advance(s0, Event::Responded { status: 404 }, &config);
    assert_eq!(failure_message(&s1), Some("Failed to download file".to_string()));
    let s2 = advance(s1.clone(), Event::Received { body: vec![1, 2, 3] }, &config);
    assert_eq!(s2, s1);
    let s3 = advance(s2, Event::Stored, &config);
    assert_eq!(s3, s1);
}

#[test]
fn transport_error_message_is_passed_on() {
    let config = bucket_config();
    let s0 = start("http://example.com/a.txt".to_string());
    let s1 = advance(s0, Event::Failed { message: "connection refused".to_string() }, &config);
    assert_eq!(failure_message(&s1), Some("connection refused".to_string()));
}

#[test]
fn store_error_message_is_passed_on() {
    let config = bucket_config();
    let state = Republish::Store { key: "uploads/k.png".to_string(), body: vec![7] };
    let next = advance(state, Event::Failed { message: "access denied".to_string() }, &config);
    assert_eq!(failure_message(&next), Some("access denied".to_string()));
}

#[test]
fn unexpected_event_changes_nothing() {
    let config = bucket_config();
    let fetch = Republish::Fetch { url: "http://example.com/a".to_string() };
    assert_eq!(advance(fetch.clone(), Event::Stored, &config), fetch);
    assert_eq!(advance(fetch.clone(), Event::Received { body: vec![1] }, &config), fetch);
    let store = Republish::Store { key: "uploads/k".to_string(), body: vec![1] };
    assert_eq!(advance(store.clone(), Event::Responded { status: 200 }, &config), store);
}

#[test]
fn upload_through_bucket_url() {
    let config = bucket_config();
    let state = Republish::Store { key: "uploads/k.png".to_string(), body: vec![1] };
    let next = advance(state, Event::Stored, &config);
    assert_eq!(
        next,
        Republish::Done {
            result: UploadResult::Uploaded {
                file_url: "https://media.s3.amazonaws.com/uploads/k.png".to_string()
            }
        }
    );
}

#[test]
fn extension_comes_from_the_url_path() {
    let key = new_object_key("http://example.com/report.pdf");
    assert!(key.starts_with("uploads/"));
    assert!(key.ends_with(".pdf"));
    assert_eq!(key.len(), "uploads/".len() + 36 + ".pdf".len());
}

#[test]
fn url_without_extension_is_plain_text() {
    let key = new_object_key("http://localhost/file");
    assert!(key.ends_with(".plain"));
    assert!(is_uuid_text(&key["uploads/".len()..key.len() - ".plain".len()]));
}

#[test]
fn distinct_urls_get_distinct_keys() {
    let a = new_object_key("http://example.com/a.png");
    let b = new_object_key("http://example.com/b.png");
    assert_ne!(a, b);
    let c = new_object_key("http://example.com/a.png");
    assert_ne!(a, c);
}
