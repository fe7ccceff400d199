use b2_uploader::client::{
    Progress, Setup, BUCKET_ID_VARIABLE, KEY_ID_VARIABLE, KEY_NAME_VARIABLE,
};
use b2_uploader::request::{Method, Request};
use b2_uploader::{B2Error, B2Uploader};

const AUTH_BODY: &[u8] =
    br#"{"apiInfo":{"storageApi":{"apiUrl":"https://api004.example"}},"authorizationToken":"session-token"}"#;
const UPLOAD_URL_BODY: &[u8] =
    br#"{"authorizationToken":"upload-token","uploadUrl":"https://pod-000.example/upload/here"}"#;

fn some(text: &str) -> Option<String> {
    Some(String::from(text))
}

fn header_lines(request: &Request) -> Vec<(String, String)> {
    request.headers.iter().map(|h| (h.name.clone(), h.value.clone())).collect()
}

fn line(name: &str, value: &str) -> (String, String) {
    (String::from(name), String::from(value))
}

fn config_error(progress: Progress) -> String {
    match progress {
        Progress::Failed(B2Error::ConfigError(message)) => message,
        other => panic!("unexpected step: {:?}", other),
    }
}

fn sent(progress: Progress) -> (Setup, Request) {
    match progress {
        Progress::Send(setup, request) => (setup, request),
        other => panic!("unexpected step: {:?}", other),
    }
}

fn ready() -> B2Uploader {
    let (setup, _) = sent(B2Uploader::new(some("key-id"), some("key-secret"), some("bucket-1")));
    let (setup, _) = sent(setup.advance(Ok(AUTH_BODY.to_vec())));
    match setup.advance(Ok(UPLOAD_URL_BODY.to_vec())) {
        Progress::Ready(uploader) => uploader,
        other => panic!("unexpected step: {:?}", other),
    }
}

#[test]
fn configuration_names() {
    assert_eq!(KEY_ID_VARIABLE, "B2_KEY_ID");
    assert_eq!(KEY_NAME_VARIABLE, "B2_KEY_NAME");
    assert_eq!(BUCKET_ID_VARIABLE, "B2_BUCKET_ID");
}

#[test]
fn missing_bucket_id_fails_before_any_request() {
    let progress = B2Uploader::new(some("key-id"), some("key-secret"), None);
    assert_eq!(config_error(progress), "B2_BUCKET_ID not set");
}

#[test]
fn missing_key_id_is_named_first() {
    assert_eq!(config_error(B2Uploader::new(None, None, None)), "B2_KEY_ID not set");
    assert_eq!(config_error(B2Uploader::new(None, some("s"), some("b"))), "B2_KEY_ID not set");
}

#[test]
fn missing_key_name_is_named_before_the_bucket() {
    assert_eq!(config_error(B2Uploader::new(some("k"), None, None)), "B2_KEY_NAME not set");
    assert_eq!(config_error(B2Uploader::new(some("k"), None, some("b"))), "B2_KEY_NAME not set");
}

#[test]
fn construction_begins_with_the_authorize_request() {
    let (_, request) = sent(B2Uploader::new(some("key-id"), some("key-secret"), some("bucket-1")));
    assert_eq!(request.method, Method::Get);
    assert_eq!(request.url, "https://api.backblazeb2.com/b2api/v3/b2_authorize_account");
    let auth = request.basic_auth.unwrap();
    assert_eq!(auth.username, "key-id");
    assert_eq!(auth.password, "key-secret");
    assert!(request.headers.is_empty());
    assert!(request.body.is_none());
}

#[test]
fn authorize_reply_leads_to_the_upload_url_request() {
    let (setup, _) = sent(B2Uploader::new(some("key-id"), some("key-secret"), some("bucket-1")));
    let (_, request) = sent(setup.advance(Ok(AUTH_BODY.to_vec())));
    assert_eq!(request.method, Method::Post);
    assert_eq!(request.url, "https://api004.example/b2api/v3/b2_get_upload_url");
    assert!(request.basic_auth.is_none());
    assert_eq!(
        header_lines(&request),
        vec![line("Authorization", "session-token"), line("Content-Type", "application/json")]
    );
    assert_eq!(request.body, Some(br#"{"bucketId":"bucket-1"}"#.to_vec()));
}

#[test]
fn malformed_authorize_reply_ends_the_negotiation() {
    let (setup, _) = sent(B2Uploader::new(some("key-id"), some("key-secret"), some("bucket-1")));
    assert!(matches!(
        setup.advance(Ok(b"<html>error</html>".to_vec())),
        Progress::Failed(B2Error::JsonError(_))
    ));
    let (setup, _) = sent(B2Uploader::new(some("key-id"), some("key-secret"), some("bucket-1")));
    assert!(matches!(
        setup.advance(Ok(br#"{"status":401,"code":"unauthorized","message":""}"#.to_vec())),
        Progress::Failed(B2Error::JsonError(_))
    ));
}

fn transport_failure() -> reqwest::Error {
    reqwest::Client::new().get("not a url").build().unwrap_err()
}

#[test]
fn transport_failure_ends_the_negotiation() {
    let (setup, _) = sent(B2Uploader::new(some("key-id"), some("key-secret"), some("bucket-1")));
    assert!(matches!(
        setup.advance(Err(transport_failure())),
        Progress::Failed(B2Error::RequestError(_))
    ));
    let (setup, _) = sent(B2Uploader::new(some("key-id"), some("key-secret"), some("bucket-1")));
    let (setup, _) = sent(setup.advance(Ok(AUTH_BODY.to_vec())));
    assert!(matches!(
        setup.advance(Err(transport_failure())),
        Progress::Failed(B2Error::RequestError(_))
    ));
}

#[test]
fn upload_url_reply_completes_the_session() {
    let uploader = ready();
    assert_eq!(uploader.auth_response().api_info.storage_api.api_url, "https://api004.example");
    assert_eq!(uploader.auth_response().authorization_token, "session-token");
    assert_eq!(uploader.upload_url_response().upload_url, "https://pod-000.example/upload/here");
    assert_eq!(uploader.upload_url_response().authorization_token, "upload-token");
}

#[test]
fn malformed_upload_url_reply_ends_the_negotiation() {
    let (setup, _) = sent(B2Uploader::new(some("key-id"), some("key-secret"), some("bucket-1")));
    let (setup, _) = sent(setup.advance(Ok(AUTH_BODY.to_vec())));
    assert!(matches!(setup.advance(Ok(AUTH_BODY.to_vec())), Progress::Failed(B2Error::JsonError(_))));
}

#[test]
fn upload_request_for_a_given_name() {
    let uploader = ready();
    let request = uploader.upload_named("bin_resp_2024-01-02_03-04-05.json", b"hello world".to_vec());
    assert_eq!(request.method, Method::Post);
    assert_eq!(request.url, "https://pod-000.example/upload/here");
    assert!(request.basic_auth.is_none());
    assert_eq!(
        header_lines(&request),
        vec![
            line("Authorization", "upload-token"),
            line("X-Bz-File-Name", "bin%5Fresp%5F2024%2D01%2D02%5F03%2D04%2D05%2Ejson"),
            line("Content-Type", "text/plain"),
            line("Content-Length", "11"),
            line("X-Bz-Content-Sha1", "2aae6c35c94fcfb415dbe95f408b9ce91ee846ed"),
        ]
    );
    assert_eq!(request.body, Some(b"hello world".to_vec()));
}

#[test]
fn upload_request_for_an_empty_payload() {
    let uploader = ready();
    let request = uploader.upload_named("x", Vec::new());
    let lines = header_lines(&request);
    assert_eq!(lines[1], line("X-Bz-File-Name", "x"));
    assert_eq!(lines[3], line("Content-Length", "0"));
    assert_eq!(lines[4], line("X-Bz-Content-Sha1", "da39a3ee5e6b4b0d3255bfef95601890afd80709"));
    assert_eq!(request.body, Some(Vec::new()));
}

#[test]
fn upload_file_names_the_payload_by_the_clock() {
    let uploader = ready();
    let request = uploader.upload_file(vec![1, 2, 3]);
    let lines = header_lines(&request);
    assert_eq!(lines.len(), 5);
    assert_eq!(lines[0], line("Authorization", "upload-token"));
    assert_eq!(lines[1].0, "X-Bz-File-Name");
    let name = percent_encoding::percent_decode_str(&lines[1].1).decode_utf8().unwrap();
    assert!(name.starts_with("bin_resp_"));
    assert!(name.ends_with(".json"));
    assert_eq!(name.len(), "bin_resp_2024-01-02_03-04-05.json".len());
    assert!(lines[1].1.starts_with("bin%5Fresp%5F"));
    assert_eq!(lines[2], line("Content-Type", "text/plain"));
    assert_eq!(lines[3], line("Content-Length", "3"));
    assert_eq!(lines[4], line("X-Bz-Content-Sha1", "7037807198c22a7d2b0807371d763779a84fdfcf"));
    assert_eq!(request.body, Some(vec![1, 2, 3]));
}

#[test]
fn one_session_serves_several_uploads() {
    let uploader = ready();
    let first = uploader.upload_named("a", b"one".to_vec());
    let second = uploader.upload_named("b", b"two".to_vec());
    assert_eq!(first.url, second.url);
    assert_eq!(header_lines(&first)[0], header_lines(&second)[0]);
    assert_ne!(header_lines(&first)[4], header_lines(&second)[4]);
}

#[test]
fn requests_of_the_session_by_hand() {
    let uploader = ready();
    let request = uploader.authenticate();
    assert_eq!(request.basic_auth.unwrap().username, "key-id");
    let request = uploader.get_upload_url(uploader.auth_response());
    assert_eq!(request.url, "https://api004.example/b2api/v3/b2_get_upload_url");
    assert_eq!(request.body, Some(br#"{"bucketId":"bucket-1"}"#.to_vec()));
}
