use b2_uploader::client::UploadReply;
use b2_uploader::{ApiInfo, AuthResponse, B2Error, BucketRequest, StorageApi, UploadUrlResponse};

const AUTH_BODY: &[u8] = br#"{
    "accountId": "0123456789ab",
    "apiInfo": {
        "storageApi": {
            "apiUrl": "https://api004.backblazeb2.com",
            "bucketId": null,
            "capabilities": ["writeFiles"]
        }
    },
    "authorizationToken": "4_0022623512fc8f80000000001_0186e431_d18d02_acct_tH7VW03boebOXayIc43-sxptpfA=",
    "applicationKeyExpirationTimestamp": null
}"#;

#[test]
fn authorize_reply_is_read_exactly() {
    let reply = AuthResponse::from_body(AUTH_BODY).unwrap();
    assert_eq!(reply.api_info.storage_api.api_url, "https://api004.backblazeb2.com");
    assert_eq!(
        reply.authorization_token,
        "4_0022623512fc8f80000000001_0186e431_d18d02_acct_tH7VW03boebOXayIc43-sxptpfA="
    );
}

#[test]
fn authorize_reply_from_a_value() {
    let value: serde_json::Value = serde_json::from_slice(AUTH_BODY).unwrap();
    let reply = AuthResponse::from_json(&value).unwrap();
    assert_eq!(reply.api_info.storage_api.api_url, "https://api004.backblazeb2.com");
}

#[test]
fn authorize_reply_that_is_not_json_is_refused() {
    for body in [&b"<html>Service Unavailable</html>"[..], b"", b"{", b"{} trailing", b"\xff\xfe"] {
        assert!(matches!(AuthResponse::from_body(body), Err(B2Error::JsonError(_))));
    }
}

#[test]
fn authorize_reply_that_lacks_a_member_is_refused() {
    for body in [
        &br#"{}"#[..],
        br#"null"#,
        br#"[]"#,
        br#""text""#,
        br#"{"authorizationToken":"t"}"#,
        br#"{"apiInfo":{},"authorizationToken":"t"}"#,
        br#"{"apiInfo":{"storageApi":{}},"authorizationToken":"t"}"#,
        br#"{"apiInfo":{"storageApi":{"apiUrl":"u"}}}"#,
        br#"{"apiInfo":{"storageApi":{"apiUrl":5}},"authorizationToken":"t"}"#,
        br#"{"apiInfo":{"storageApi":{"apiUrl":"u"}},"authorizationToken":null}"#,
        br#"{"apiInfo":"storageApi","authorizationToken":"t"}"#,
        br#"{"api_info":{"storage_api":{"api_url":"u"}},"authorization_token":"t"}"#,
    ] {
        assert!(matches!(AuthResponse::from_body(body), Err(B2Error::JsonError(_))));
    }
}

#[test]
fn upload_url_reply_is_read_exactly() {
    let body = br#"{"bucketId":"b","uploadUrl":"https://pod.example/b2api/v3/b2_upload_file/x","authorizationToken":"up!tok"}"#;
    let reply = UploadUrlResponse::from_body(body).unwrap();
    assert_eq!(reply.upload_url, "https://pod.example/b2api/v3/b2_upload_file/x");
    assert_eq!(reply.authorization_token, "up!tok");
}

#[test]
fn upload_url_reply_that_lacks_a_member_is_refused() {
    for body in [
        &br#"{"uploadUrl":"u"}"#[..],
        br#"{"authorizationToken":"t"}"#,
        br#"{"uploadUrl":1,"authorizationToken":"t"}"#,
        br#"{"uploadUrl":"u","authorizationToken":["t"]}"#,
        br#"not json"#,
    ] {
        assert!(matches!(UploadUrlResponse::from_body(body), Err(B2Error::JsonError(_))));
    }
}

#[test]
fn default_authorize_reply_is_empty() {
    let reply = AuthResponse::default();
    assert_eq!(reply.api_info.storage_api.api_url, "");
    assert_eq!(reply.authorization_token, "");
    assert_eq!(ApiInfo::default().storage_api.api_url, "");
    assert_eq!(StorageApi::default().api_url, "");
}

#[test]
fn bucket_request_as_json() {
    let request = BucketRequest { bucket_id: String::from("4a48fe8875c6214145260818") };
    assert_eq!(request.to_json(), br#"{"bucketId":"4a48fe8875c6214145260818"}"#.to_vec());
    let empty = BucketRequest { bucket_id: String::new() };
    assert_eq!(empty.to_json(), br#"{"bucketId":""}"#.to_vec());
}

#[test]
fn bucket_request_escapes_its_id() {
    let id = "a\"b\\c\nd\u{1}e\u{7f}\u{e9}/\u{8}\t\u{c}\r\u{1f} \u{2603}";
    let request = BucketRequest { bucket_id: String::from(id) };
    let body = request.to_json();
    let expected = "{\"bucketId\":\"a\\\"b\\\\c\\nd\\u0001e\u{7f}\u{e9}/\\b\\t\\f\\r\\u001f \u{2603}\"}";
    assert_eq!(body, expected.as_bytes().to_vec());
    let value: serde_json::Value = serde_json::from_slice(&body).unwrap();
    assert_eq!(value["bucketId"], id);
}

#[test]
fn bucket_request_is_what_a_json_writer_writes() {
    for id in ["", "plain", "\u{0}\u{1}\u{1e}\u{1f}\u{20}", "\"\\/", "\u{7f}\u{80}\u{7ff}\u{ffff}\u{10ffff}"] {
        let mut members = serde_json::Map::new();
        members.insert(String::from("bucketId"), serde_json::Value::String(String::from(id)));
        let written = serde_json::to_vec(&serde_json::Value::Object(members)).unwrap();
        assert_eq!(BucketRequest { bucket_id: String::from(id) }.to_json(), written);
    }
}

#[test]
fn status_in_the_success_range_is_accepted() {
    for status in [200u16, 201, 204, 250, 299] {
        assert_eq!(UploadReply::of_status(status), UploadReply::Accepted);
    }
}

#[test]
fn status_outside_the_success_range_is_rejected() {
    for status in [0u16, 100, 199, 300, 301, 400, 401, 404, 500, 503, 999, u16::MAX] {
        assert_eq!(UploadReply::of_status(status), UploadReply::Rejected { status_code: status });
    }
}

#[test]
fn accepted_upload_returns_the_json_unchanged() {
    let value = UploadReply::accepted(Ok(br#"{"fileId":"abc"}"#.to_vec())).unwrap();
    let mut members = serde_json::Map::new();
    members.insert(String::from("fileId"), serde_json::Value::String(String::from("abc")));
    assert_eq!(value, serde_json::Value::Object(members));
}

#[test]
fn accepted_upload_keeps_what_is_not_a_string() {
    let body = br#"{"contentLength": 12, "fileInfo": {}, "action": "upload", "list": [1, "two", null]}"#;
    let value = UploadReply::accepted(Ok(body.to_vec())).unwrap();
    let expected: serde_json::Value = serde_json::from_slice(body).unwrap();
    assert_eq!(value, expected);
    assert_eq!(value["contentLength"], 12);
    assert_eq!(value["list"][1], "two");
}

#[test]
fn accepted_upload_with_a_body_that_is_not_json() {
    assert!(matches!(UploadReply::accepted(Ok(b"OK".to_vec())), Err(B2Error::JsonError(_))));
    assert!(matches!(UploadReply::accepted(Ok(Vec::new())), Err(B2Error::JsonError(_))));
}

#[test]
fn rejected_upload_carries_status_and_text() {
    assert_eq!(UploadReply::of_status(400), UploadReply::Rejected { status_code: 400 });
    match UploadReply::rejected(400, Ok(String::from("bad request"))) {
        B2Error::UploadError { status_code, message } => {
            assert_eq!(status_code, 400);
            assert_eq!(message, "bad request");
        }
        other => panic!("unexpected error: {:?}", other),
    }
}

fn transport_failure() -> reqwest::Error {
    reqwest::Client::new().get("not a url").build().unwrap_err()
}

#[test]
fn unread_upload_body_is_a_transport_failure() {
    assert!(matches!(
        UploadReply::accepted(Err(transport_failure())),
        Err(B2Error::RequestError(_))
    ));
    assert!(matches!(
        UploadReply::rejected(500, Err(transport_failure())),
        B2Error::RequestError(_)
    ));
}

#[test]
fn errors_from_outside_errors() {
    assert!(matches!(B2Error::from(transport_failure()), B2Error::RequestError(_)));
    let io = std::io::Error::new(std::io::ErrorKind::NotFound, "gone");
    assert!(matches!(B2Error::from(io), B2Error::FileError(_)));
    let json = serde_json::from_str::<serde_json::Value>("{").unwrap_err();
    assert!(matches!(B2Error::from(json), B2Error::JsonError(_)));
    let refused = B2Error::AuthError(String::from("bad key"));
    assert!(matches!(refused, B2Error::AuthError(ref text) if text == "bad key"));
}
